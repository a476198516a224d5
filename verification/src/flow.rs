//! What the bot does in a chat, and what it then waits for.
//!
//! Handling an update is a chain of steps. A step lists what to do in the chat,
//! in order, and names the outside work whose result the next step needs. Each
//! kind of work carries what the bot has to remember until the result is there.

use vstd::prelude::*;

use crate::config::State;
use crate::spotify::SpotifyMeta;
use crate::streaming::PlaylistRun;
use crate::voice::RecognitionResult;

verus! {

/// `r` with texts as character sequences.
pub open spec fn result_view<T: DeepView>(r: Result<T, String>) -> Result<T::V, Seq<char>> {
    match r {
        Ok(t) => Ok(t.deep_view()),
        Err(e) => Err(e@),
    }
}

// ── Messages ─────────────────────────────────────────────────────────────────

/// A button under a message.
pub enum Button {
    /// Sends `data` back to the bot.
    Callback { label: String, data: String },
    /// Opens a page.
    Link { label: String, url: String },
}

pub ghost enum ButtonView {
    Callback { label: Seq<char>, data: Seq<char> },
    Link { label: Seq<char>, url: Seq<char> },
}

impl DeepView for Button {
    type V = ButtonView;

    open spec fn deep_view(&self) -> ButtonView {
        match self {
            Button::Callback { label, data } => ButtonView::Callback { label: label@, data: data@ },
            Button::Link { label, url } => ButtonView::Link { label: label@, url: url@ },
        }
    }
}

/// A keyboard in place of the phone's: each key sends its own text.
pub struct KeyboardMarkup {
    pub rows: Vec<Vec<String>>,
    pub resize: bool,
}

#[verifier::ext_equal]
pub ghost struct KeyboardView {
    pub rows: Seq<Seq<Seq<char>>>,
    pub resize: bool,
}

impl DeepView for KeyboardMarkup {
    type V = KeyboardView;

    open spec fn deep_view(&self) -> KeyboardView {
        KeyboardView { rows: self.rows.deep_view(), resize: self.resize }
    }
}

/// What comes with a message.
pub enum Markup {
    Plain,
    Inline(Vec<Vec<Button>>),
    Keyboard(KeyboardMarkup),
}

#[verifier::ext_equal]
pub ghost enum MarkupView {
    Plain,
    Inline(Seq<Seq<ButtonView>>),
    Keyboard(KeyboardView),
}

impl DeepView for Markup {
    type V = MarkupView;

    open spec fn deep_view(&self) -> MarkupView {
        match self {
            Markup::Plain => MarkupView::Plain,
            Markup::Inline(rows) => MarkupView::Inline(rows.deep_view()),
            Markup::Keyboard(k) => MarkupView::Keyboard(k.deep_view()),
        }
    }
}

pub fn callback(label: &str, data: &str) -> (r: Button)
    ensures
        r.deep_view() == (ButtonView::Callback { label: label@, data: data@ }),
{
    Button::Callback { label: label.to_owned(), data: data.to_owned() }
}

/// A row with one button.
pub fn row(b: Button) -> (r: Vec<Button>)
    ensures
        r.deep_view() == seq![b.deep_view()],
{
    let mut v: Vec<Button> = Vec::new();
    v.push(b);
    assert(v.deep_view() =~= seq![b.deep_view()]);
    v
}

/// The row that drops what is on offer.
pub open spec fn cancel_row() -> Seq<ButtonView> {
    seq![ButtonView::Callback { label: "❌ Cancel"@, data: "cancel"@ }]
}

pub fn cancel_button() -> (r: Vec<Button>)
    ensures
        r.deep_view() == cancel_row(),
{
    row(callback("❌ Cancel", "cancel"))
}

/// A row that opens a page.
pub fn link_button(label: &str, url: &str) -> (r: Vec<Button>)
    ensures
        r.deep_view() == seq![ButtonView::Link { label: label@, url: url@ }],
{
    row(Button::Link { label: label.to_owned(), url: url.to_owned() })
}

// ── Actions ──────────────────────────────────────────────────────────────────

/// One thing to do in the chat. Where it fails, the handling of the update ends
/// with that error, unless the action says otherwise.
///
/// The status message is the last message that was sent or, before one was,
/// the message with the button that was tapped.
pub enum Action {
    /// Sends a message.
    Send { text: String, markup: Markup },
    /// Sends a message; a failure is ignored.
    TrySend { text: String },
    /// Puts a text in place of the status message.
    Edit { text: String, markup: Markup },
    /// Puts a text in place of the status message; a failure is ignored.
    TryEdit { text: String },
    /// Makes the dialogue wait for something.
    SetDialogue(State),
    /// Makes the dialogue wait for something; a failure is ignored.
    TrySetDialogue(State),
    /// Ends the dialogue; a failure is ignored.
    ExitDialogue,
    /// Lets the wait for a voice note time out after so many seconds.
    ArmTimeout { task: VoiceTask, seconds: u64 },
    /// Confirms that a tap was received, with a notice where there is one.
    AnswerCallback { notice: Option<String> },
    /// Stores the settings of all users.
    SaveUsers,
}

#[verifier::ext_equal]
pub ghost enum ActionView {
    Send { text: Seq<char>, markup: MarkupView },
    TrySend { text: Seq<char> },
    Edit { text: Seq<char>, markup: MarkupView },
    TryEdit { text: Seq<char> },
    SetDialogue(State),
    TrySetDialogue(State),
    ExitDialogue,
    ArmTimeout { task: VoiceTask, seconds: u64 },
    AnswerCallback { notice: Option<Seq<char>> },
    SaveUsers,
}

impl DeepView for Action {
    type V = ActionView;

    open spec fn deep_view(&self) -> ActionView {
        match self {
            Action::Send { text, markup } => ActionView::Send {
                text: text@,
                markup: markup.deep_view(),
            },
            Action::TrySend { text } => ActionView::TrySend { text: text@ },
            Action::Edit { text, markup } => ActionView::Edit {
                text: text@,
                markup: markup.deep_view(),
            },
            Action::TryEdit { text } => ActionView::TryEdit { text: text@ },
            Action::SetDialogue(s) => ActionView::SetDialogue(*s),
            Action::TrySetDialogue(s) => ActionView::TrySetDialogue(*s),
            Action::ExitDialogue => ActionView::ExitDialogue,
            Action::ArmTimeout { task, seconds } => ActionView::ArmTimeout {
                task: *task,
                seconds: *seconds,
            },
            Action::AnswerCallback { notice } => ActionView::AnswerCallback {
                notice: notice.deep_view(),
            },
            Action::SaveUsers => ActionView::SaveUsers,
        }
    }
}

/// A message without buttons.
pub open spec fn sent(text: Seq<char>) -> ActionView {
    ActionView::Send { text, markup: MarkupView::Plain }
}

/// A message with buttons under it.
pub open spec fn sent_with(text: Seq<char>, rows: Seq<Seq<ButtonView>>) -> ActionView {
    ActionView::Send { text, markup: MarkupView::Inline(rows) }
}

/// A message that brings a keyboard.
pub open spec fn sent_with_keys(text: Seq<char>, keys: KeyboardView) -> ActionView {
    ActionView::Send { text, markup: MarkupView::Keyboard(keys) }
}

/// A status message without buttons.
pub open spec fn edited(text: Seq<char>) -> ActionView {
    ActionView::Edit { text, markup: MarkupView::Plain }
}

/// A status message with buttons under it.
pub open spec fn edited_with(text: Seq<char>, rows: Seq<Seq<ButtonView>>) -> ActionView {
    ActionView::Edit { text, markup: MarkupView::Inline(rows) }
}

pub fn send(text: &str) -> (r: Action)
    ensures
        r.deep_view() == sent(text@),
{
    Action::Send { text: text.to_owned(), markup: Markup::Plain }
}

pub fn send_with(text: &str, rows: Vec<Vec<Button>>) -> (r: Action)
    ensures
        r.deep_view() == sent_with(text@, rows.deep_view()),
{
    Action::Send { text: text.to_owned(), markup: Markup::Inline(rows) }
}

pub fn send_with_keys(text: &str, keys: KeyboardMarkup) -> (r: Action)
    ensures
        r.deep_view() == sent_with_keys(text@, keys.deep_view()),
{
    Action::Send { text: text.to_owned(), markup: Markup::Keyboard(keys) }
}

pub fn edit(text: &str) -> (r: Action)
    ensures
        r.deep_view() == edited(text@),
{
    Action::Edit { text: text.to_owned(), markup: Markup::Plain }
}

pub fn edit_with(text: &str, rows: Vec<Vec<Button>>) -> (r: Action)
    ensures
        r.deep_view() == edited_with(text@, rows.deep_view()),
{
    Action::Edit { text: text.to_owned(), markup: Markup::Inline(rows) }
}

// ── Work ─────────────────────────────────────────────────────────────────────

/// What deemix searches for.
#[derive(Clone, Copy, Debug, PartialEq, Eq, Structural)]
pub enum SearchKind {
    Track,
    Album,
}

/// The name of a kind in a search request.
pub open spec fn name_of(kind: SearchKind) -> Seq<char> {
    match kind {
        SearchKind::Track => "track"@,
        SearchKind::Album => "album"@,
    }
}

/// The icon before each result of a kind.
pub open spec fn icon_of(kind: SearchKind) -> Seq<char> {
    match kind {
        SearchKind::Track => "🎵"@,
        SearchKind::Album => "💿"@,
    }
}

impl SearchKind {
    pub fn name(self) -> (r: &'static str)
        ensures
            r@ == name_of(self),
    {
        match self {
            SearchKind::Track => "track",
            SearchKind::Album => "album",
        }
    }

    pub fn icon(self) -> (r: &'static str)
        ensures
            r@ == icon_of(self),
    {
        match self {
            SearchKind::Track => "🎵",
            SearchKind::Album => "💿",
        }
    }
}

/// What the results of a search are for.
pub enum AfterSearch {
    /// To list what a user searched for.
    List { query: String, kind: SearchKind },
    /// To list what a transcribed voice note asked for.
    Heard { text: String },
    /// To list a recognised song.
    Recognized { song: RecognitionResult, query: String },
    /// To list a recognised song, searched for by its title alone.
    RecognizedTitle { song: RecognitionResult, query: String },
    /// To list what a Spotify link stands for.
    Linked { url: String, meta: SpotifyMeta, kind: SearchKind },
    /// To queue the current track of a playlist.
    Playlist { run: PlaylistRun, by_title: bool },
}

pub ghost enum AfterSearchView {
    List { query: Seq<char>, kind: SearchKind },
    Heard { text: Seq<char> },
    Recognized { song: crate::voice::RecognitionView, query: Seq<char> },
    RecognizedTitle { song: crate::voice::RecognitionView, query: Seq<char> },
    Linked { url: Seq<char>, meta: crate::spotify::MetaView, kind: SearchKind },
    Playlist { run: crate::streaming::RunView, by_title: bool },
}

impl DeepView for AfterSearch {
    type V = AfterSearchView;

    open spec fn deep_view(&self) -> AfterSearchView {
        match self {
            AfterSearch::List { query, kind } => AfterSearchView::List { query: query@, kind: *kind },
            AfterSearch::Heard { text } => AfterSearchView::Heard { text: text@ },
            AfterSearch::Recognized { song, query } => AfterSearchView::Recognized {
                song: song.deep_view(),
                query: query@,
            },
            AfterSearch::RecognizedTitle { song, query } => AfterSearchView::RecognizedTitle {
                song: song.deep_view(),
                query: query@,
            },
            AfterSearch::Linked { url, meta, kind } => AfterSearchView::Linked {
                url: url@,
                meta: meta.deep_view(),
                kind: *kind,
            },
            AfterSearch::Playlist { run, by_title } => AfterSearchView::Playlist {
                run: run.deep_view(),
                by_title: *by_title,
            },
        }
    }
}

/// What was queued.
pub enum AfterQueue {
    /// The result whose button was tapped.
    Tapped { kind: String },
    /// What a link stands for.
    Linked { label: String },
    /// The current track of a playlist.
    Playlist { run: PlaylistRun },
}

pub ghost enum AfterQueueView {
    Tapped { kind: Seq<char> },
    Linked { label: Seq<char> },
    Playlist { run: crate::streaming::RunView },
}

impl DeepView for AfterQueue {
    type V = AfterQueueView;

    open spec fn deep_view(&self) -> AfterQueueView {
        match self {
            AfterQueue::Tapped { kind } => AfterQueueView::Tapped { kind: kind@ },
            AfterQueue::Linked { label } => AfterQueueView::Linked { label: label@ },
            AfterQueue::Playlist { run } => AfterQueueView::Playlist { run: run.deep_view() },
        }
    }
}

/// What Spotify was asked for.
pub enum AfterSpotify {
    /// What a link stands for.
    Link { url: String, kind: SearchKind },
    /// A recognised song.
    Recognized { song: RecognitionResult },
}

pub ghost enum AfterSpotifyView {
    Link { url: Seq<char>, kind: SearchKind },
    Recognized { song: crate::voice::RecognitionView },
}

impl DeepView for AfterSpotify {
    type V = AfterSpotifyView;

    open spec fn deep_view(&self) -> AfterSpotifyView {
        match self {
            AfterSpotify::Link { url, kind } => AfterSpotifyView::Link { url: url@, kind: *kind },
            AfterSpotify::Recognized { song } => AfterSpotifyView::Recognized {
                song: song.deep_view(),
            },
        }
    }
}

/// What Odesli was asked for.
pub enum AfterOdesli {
    /// A Spotify link that deemix has no results for.
    Unlisted { meta: SpotifyMeta },
    /// A link of another service.
    Link { service: String },
}

pub ghost enum AfterOdesliView {
    Unlisted { meta: crate::spotify::MetaView },
    Link { service: Seq<char> },
}

impl DeepView for AfterOdesli {
    type V = AfterOdesliView;

    open spec fn deep_view(&self) -> AfterOdesliView {
        match self {
            AfterOdesli::Unlisted { meta } => AfterOdesliView::Unlisted { meta: meta.deep_view() },
            AfterOdesli::Link { service } => AfterOdesliView::Link { service: service@ },
        }
    }
}

/// What to do with a voice note.
#[derive(Clone, Copy, Debug, PartialEq, Eq, Structural)]
pub enum VoiceTask {
    Transcribe,
    Recognize,
}

/// Where a voice note came from.
#[derive(Clone, Copy, Debug, PartialEq, Eq, Structural)]
pub enum VoiceOrigin {
    /// The dialogue had asked for it.
    Dialogue,
    /// A button under it was tapped.
    Button,
}

/// The outside work that a step waits for.
#[allow(inconsistent_fields)]
pub enum Pending {
    /// None: the update is handled.
    Done,
    /// None: the handling ends with an error.
    Fail { error: String },
    /// To count the items of the download queue.
    Status { asked_by_command: bool },
    /// To remove what is finished from the download queue.
    ClearQueue,
    /// To search deemix.
    Search { query: String, kind: SearchKind, after: AfterSearch },
    /// To put a link into the download queue.
    Queue { url: String, after: AfterQueue },
    /// To log in with an ARL.
    LogIn { arl: String },
    /// To find where a short link leads.
    FollowLink { url: String },
    /// To ask Spotify what a link stands for.
    Spotify { url: String, after: AfterSpotify },
    /// To read a playlist of Spotify.
    SpotifyPlaylist { url: String },
    /// To read a playlist of YouTube.
    YoutubePlaylist { url: String },
    /// To ask Odesli for the Deezer link that matches a link.
    Odesli { url: String, after: AfterOdesli },
    /// To fetch a voice note from Telegram.
    FetchVoice { file_id: String, task: VoiceTask, origin: VoiceOrigin },
    /// To transcribe a recording.
    Transcribe { audio: Vec<u8> },
    /// To recognise the song in a recording.
    Recognize { audio: Vec<u8> },
}

#[allow(inconsistent_fields)]
pub ghost enum PendingView {
    Done,
    Fail { error: Seq<char> },
    Status { asked_by_command: bool },
    ClearQueue,
    Search { query: Seq<char>, kind: SearchKind, after: AfterSearchView },
    Queue { url: Seq<char>, after: AfterQueueView },
    LogIn { arl: Seq<char> },
    FollowLink { url: Seq<char> },
    Spotify { url: Seq<char>, after: AfterSpotifyView },
    SpotifyPlaylist { url: Seq<char> },
    YoutubePlaylist { url: Seq<char> },
    Odesli { url: Seq<char>, after: AfterOdesliView },
    FetchVoice { file_id: Seq<char>, task: VoiceTask, origin: VoiceOrigin },
    Transcribe { audio: Seq<u8> },
    Recognize { audio: Seq<u8> },
}

impl DeepView for Pending {
    type V = PendingView;

    open spec fn deep_view(&self) -> PendingView {
        match self {
            Pending::Done => PendingView::Done,
            Pending::Fail { error } => PendingView::Fail { error: error@ },
            Pending::Status { asked_by_command } => PendingView::Status {
                asked_by_command: *asked_by_command,
            },
            Pending::ClearQueue => PendingView::ClearQueue,
            Pending::Search { query, kind, after } => PendingView::Search {
                query: query@,
                kind: *kind,
                after: after.deep_view(),
            },
            Pending::Queue { url, after } => PendingView::Queue {
                url: url@,
                after: after.deep_view(),
            },
            Pending::LogIn { arl } => PendingView::LogIn { arl: arl@ },
            Pending::FollowLink { url } => PendingView::FollowLink { url: url@ },
            Pending::Spotify { url, after } => PendingView::Spotify {
                url: url@,
                after: after.deep_view(),
            },
            Pending::SpotifyPlaylist { url } => PendingView::SpotifyPlaylist { url: url@ },
            Pending::YoutubePlaylist { url } => PendingView::YoutubePlaylist { url: url@ },
            Pending::Odesli { url, after } => PendingView::Odesli {
                url: url@,
                after: after.deep_view(),
            },
            Pending::FetchVoice { file_id, task, origin } => PendingView::FetchVoice {
                file_id: file_id@,
                task: *task,
                origin: *origin,
            },
            Pending::Transcribe { audio } => PendingView::Transcribe { audio: audio@ },
            Pending::Recognize { audio } => PendingView::Recognize { audio: audio@ },
        }
    }
}

// ── Steps ────────────────────────────────────────────────────────────────────

/// What to do in the chat, in order, and what to wait for after that.
pub struct Step {
    pub actions: Vec<Action>,
    pub next: Pending,
}

#[verifier::ext_equal]
pub ghost struct StepView {
    pub actions: Seq<ActionView>,
    pub next: PendingView,
}

impl DeepView for Step {
    type V = StepView;

    open spec fn deep_view(&self) -> StepView {
        StepView { actions: self.actions.deep_view(), next: self.next.deep_view() }
    }
}

/// The step that does nothing and waits for nothing.
pub open spec fn idle() -> StepView {
    StepView { actions: Seq::empty(), next: PendingView::Done }
}

impl StepView {
    /// This step with one more action.
    pub open spec fn act(self, action: ActionView) -> StepView {
        StepView { actions: self.actions.push(action), ..self }
    }

    /// This step, waiting for `next`.
    pub open spec fn wait(self, next: PendingView) -> StepView {
        StepView { next, ..self }
    }
}

/// A step with actions before its own.
pub open spec fn after_actions(actions: Seq<ActionView>, step: StepView) -> StepView {
    StepView { actions: actions + step.actions, ..step }
}

impl Step {
    pub fn new() -> (r: Step)
        ensures
            r.deep_view() == idle(),
    {
        let r = Step { actions: Vec::new(), next: Pending::Done };
        assert(r.deep_view() =~= idle());
        r
    }

    pub fn act(self, action: Action) -> (r: Step)
        ensures
            r.deep_view() == self.deep_view().act(action.deep_view()),
    {
        let mut r = self;
        r.actions.push(action);
        assert(r.deep_view() =~= self.deep_view().act(action.deep_view()));
        r
    }

    pub fn wait(self, next: Pending) -> (r: Step)
        ensures
            r.deep_view() == self.deep_view().wait(next.deep_view()),
    {
        Step { actions: self.actions, next }
    }

    /// This step with an action before all others.
    pub fn after(self, action: Action) -> (r: Step)
        ensures
            r.deep_view() == after_actions(seq![action.deep_view()], self.deep_view()),
    {
        let mut r = self;
        r.actions.insert(0, action);
        assert(r.deep_view() =~= after_actions(seq![action.deep_view()], self.deep_view()));
        r
    }
}

} // verus!
