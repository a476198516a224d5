//! Configuration, shared state and dialogue states.

use vstd::prelude::*;

use std::collections::VecDeque;

use crate::json::Json;
use crate::table::Table;
use crate::text::{lowercase, parse_i64, parse_u8, same, split_char, trim};
use crate::users::UsersDb;

verus! {

// ── Dialogue ─────────────────────────────────────────────────────────────────

/// What the bot is waiting for in a chat.
#[derive(Clone, Copy, Debug, PartialEq, Eq, Structural)]
pub enum State {
    Idle,
    AwaitingArl,
    AwaitingSearch,
    AwaitingAlbum,
    AwaitingVoiceTranscribe,
    AwaitingVoiceRecognize,
}

impl Default for State {
    fn default() -> (r: Self)
        ensures
            r == State::Idle,
    {
        State::Idle
    }
}

/// The commands that the bot knows.
#[derive(Clone, Copy, Debug, PartialEq, Eq, Structural)]
pub enum Command {
    Start,
    Help,
    Status,
    Search,
    Album,
    Clearqueue,
    Menu,
    Settings,
    Updatearl,
}

// ── Configuration ────────────────────────────────────────────────────────────

/// The environment variables that configure the bot, and the text of deemix's
/// login file; `None` where one is absent.
pub struct Environment {
    pub deemix_url: Option<String>,
    pub login_file: Option<String>,
    pub users_file: Option<String>,
    pub audd_api_key: Option<String>,
    pub acrcloud_host: Option<String>,
    pub acrcloud_access_key: Option<String>,
    pub acrcloud_secret_key: Option<String>,
    pub openai_api_key: Option<String>,
    pub whisper_url: Option<String>,
    pub bot_bitrate: Option<String>,
    pub deemix_bitrate_lock: Option<String>,
    pub whitelist_enabled: Option<String>,
    pub whitelist_ids: Option<String>,
}

pub struct Config {
    pub deemix_url: String,
    pub deemix_arl: String,
    pub users_file: String,
    pub audd_api_key: String,
    pub acrcloud_host: String,
    pub acrcloud_access_key: String,
    pub acrcloud_secret_key: String,
    pub openai_api_key: String,
    pub whisper_url: String,
    pub deemix_bitrate: u8,
    pub deemix_bitrate_lock: bool,
    pub whitelist_enabled: bool,
    pub whitelist_ids: Vec<i64>,
}

pub ghost struct ConfigView {
    pub deemix_url: Seq<char>,
    pub deemix_arl: Seq<char>,
    pub users_file: Seq<char>,
    pub audd_api_key: Seq<char>,
    pub acrcloud_host: Seq<char>,
    pub acrcloud_access_key: Seq<char>,
    pub acrcloud_secret_key: Seq<char>,
    pub openai_api_key: Seq<char>,
    pub whisper_url: Seq<char>,
    pub deemix_bitrate: u8,
    pub deemix_bitrate_lock: bool,
    pub whitelist_enabled: bool,
    pub whitelist_ids: Seq<i64>,
}

impl DeepView for Config {
    type V = ConfigView;

    open spec fn deep_view(&self) -> ConfigView {
        ConfigView {
            deemix_url: self.deemix_url@,
            deemix_arl: self.deemix_arl@,
            users_file: self.users_file@,
            audd_api_key: self.audd_api_key@,
            acrcloud_host: self.acrcloud_host@,
            acrcloud_access_key: self.acrcloud_access_key@,
            acrcloud_secret_key: self.acrcloud_secret_key@,
            openai_api_key: self.openai_api_key@,
            whisper_url: self.whisper_url@,
            deemix_bitrate: self.deemix_bitrate,
            deemix_bitrate_lock: self.deemix_bitrate_lock,
            whitelist_enabled: self.whitelist_enabled,
            whitelist_ids: self.whitelist_ids@,
        }
    }
}

impl ConfigView {
    pub open spec fn audd_enabled(self) -> bool {
        self.audd_api_key.len() > 0
    }

    pub open spec fn acrcloud_enabled(self) -> bool {
        self.acrcloud_access_key.len() > 0 && self.acrcloud_secret_key.len() > 0
    }

    pub open spec fn whisper_enabled(self) -> bool {
        self.openai_api_key.len() > 0 || self.whisper_url.len() > 0
    }

    pub open spec fn is_user_allowed(self, user_id: i64) -> bool {
        !self.whitelist_enabled || self.whitelist_ids.contains(user_id)
    }

    pub open spec fn is_whitelist_empty(self) -> bool {
        self.whitelist_enabled && self.whitelist_ids.len() == 0
    }
}

/// The value of a variable, or `default` where it is absent.
pub open spec fn value_or(value: Option<Seq<char>>, default: Seq<char>) -> Seq<char> {
    match value {
        Some(v) => v,
        None => default,
    }
}

fn text_or(value: Option<String>, default: &str) -> (r: String)
    ensures
        r@ == value_or(value.deep_view(), default@),
{
    match value {
        Some(v) => v,
        None => default.to_owned(),
    }
}

/// A switch that is on where its value is `true`, in whatever letter case.
pub open spec fn is_on(value: Seq<char>) -> bool {
    crate::text::lowercased(value) == "true"@
}

fn switched_on(value: &str) -> (r: bool)
    ensures
        r == is_on(value@),
        value.is_ascii() ==> r == (crate::text::ascii_lowered(value@) == "true"@),
{
    same(lowercase(value).as_str(), "true")
}

/// The ARL in a login document: its string `arl`.
pub open spec fn document_arl(document: Option<crate::json::JsonView>) -> Option<Seq<char>> {
    match document {
        Some(d) => d.field("arl"@).str(),
        None => None,
    }
}

/// The ARL in the text of a login file, where it is JSON with a string `arl`.
pub open spec fn stored_arl(login_file: Option<Seq<char>>) -> Option<Seq<char>> {
    match login_file {
        Some(text) => document_arl(crate::json::json_document(text)),
        None => None,
    }
}

/// The ARL in a login document.
pub fn arl_of(document: &Option<Json>) -> (r: Option<String>)
    ensures
        r.deep_view() == document_arl(document.deep_view()),
{
    match document {
        Some(d) => d.field("arl").to_text(),
        None => None,
    }
}

/// The ARL in the text of a login file.
pub fn read_arl(login_file: &Option<String>) -> (r: Option<String>)
    ensures
        r.deep_view() == stored_arl(login_file.deep_view()),
{
    match login_file {
        Some(text) => arl_of(&crate::json::parse(text.as_str())),
        None => None,
    }
}

/// The numbers among the trimmed pieces.
pub open spec fn ids_among(pieces: Seq<Seq<char>>) -> Seq<i64>
    decreases pieces.len(),
{
    if pieces.len() == 0 {
        Seq::empty()
    } else {
        let rest = ids_among(pieces.drop_last());
        match crate::text::parsed_i64(crate::text::trimmed(pieces.last())) {
            Some(id) => rest.push(id),
            None => rest,
        }
    }
}

/// The ids in a comma-separated list; what is no number is passed over.
pub fn parse_ids(list: &str) -> (r: Vec<i64>)
    ensures
        r@ == ids_among(crate::text::split_at_char(list@, ',')),
{
    let pieces = split_char(list, ',');
    let ghost all = pieces.deep_view();
    let mut r: Vec<i64> = Vec::new();
    let mut i: usize = 0;
    while i < pieces.len()
        invariant
            all == pieces.deep_view(),
            i <= pieces@.len(),
            r@ == ids_among(all.take(i as int)),
        decreases pieces@.len() - i,
    {
        proof {
            assert(all.take(i + 1).drop_last() == all.take(i as int));
            assert(all.take(i + 1).last() == pieces@[i as int]@);
        }
        let piece = trim(pieces[i].as_str());
        match parse_i64(piece.as_str()) {
            Some(id) => r.push(id),
            None => {},
        }
        i += 1;
    }
    assert(all.take(i as int) == all);
    r
}

/// The default address of the deemix server.
pub const DEFAULT_DEEMIX_URL: &'static str = "http://localhost:6595";

/// The default place of the users file.
pub const DEFAULT_USERS_FILE: &'static str = "/config/telegram_bot/users.json";

/// The bitrate code of lossless audio, which is the default.
pub const FLAC: u8 = 9;

impl Config {
    /// The configuration that an environment describes.
    pub fn from_env(vars: Environment) -> (r: Self)
        ensures
            r.deemix_url@ == value_or(vars.deemix_url.deep_view(), DEFAULT_DEEMIX_URL@),
            r.deemix_arl@ == value_or(stored_arl(vars.login_file.deep_view()), Seq::empty()),
            r.users_file@ == value_or(vars.users_file.deep_view(), DEFAULT_USERS_FILE@),
            r.audd_api_key@ == value_or(vars.audd_api_key.deep_view(), Seq::empty()),
            r.acrcloud_host@ == value_or(vars.acrcloud_host.deep_view(), Seq::empty()),
            r.acrcloud_access_key@ == value_or(
                vars.acrcloud_access_key.deep_view(),
                Seq::empty(),
            ),
            r.acrcloud_secret_key@ == value_or(
                vars.acrcloud_secret_key.deep_view(),
                Seq::empty(),
            ),
            r.openai_api_key@ == value_or(vars.openai_api_key.deep_view(), Seq::empty()),
            r.whisper_url@ == value_or(vars.whisper_url.deep_view(), Seq::empty()),
            r.deemix_bitrate == match vars.bot_bitrate {
                Some(text) => match crate::text::parsed_u8(text@) {
                    Some(b) => b,
                    None => FLAC,
                },
                None => FLAC,
            },
            r.deemix_bitrate_lock == (vars.deemix_bitrate_lock is Some && is_on(
                vars.deemix_bitrate_lock->0@,
            )),
            r.whitelist_enabled == (vars.whitelist_enabled is None || is_on(
                vars.whitelist_enabled->0@,
            )),
            vars.deemix_bitrate_lock is Some && vars.deemix_bitrate_lock->0.is_ascii()
                ==> r.deemix_bitrate_lock == (crate::text::ascii_lowered(
                vars.deemix_bitrate_lock->0@,
            ) == "true"@),
            vars.whitelist_enabled is Some && vars.whitelist_enabled->0.is_ascii()
                ==> r.whitelist_enabled == (crate::text::ascii_lowered(
                vars.whitelist_enabled->0@,
            ) == "true"@),
            r.whitelist_ids@ == match vars.whitelist_ids {
                Some(list) => ids_among(crate::text::split_at_char(list@, ',')),
                None => Seq::<i64>::empty(),
            },
    {
        let deemix_bitrate: u8 = match &vars.bot_bitrate {
            Some(text) => match parse_u8(text.as_str()) {
                Some(b) => b,
                None => FLAC,
            },
            None => FLAC,
        };
        let deemix_bitrate_lock = match &vars.deemix_bitrate_lock {
            Some(text) => switched_on(text.as_str()),
            None => false,
        };
        let whitelist_enabled = match &vars.whitelist_enabled {
            Some(text) => switched_on(text.as_str()),
            None => true,
        };
        let whitelist_ids = match &vars.whitelist_ids {
            Some(list) => parse_ids(list.as_str()),
            None => Vec::new(),
        };
        proof {
            reveal_strlit("");
            assert(""@ =~= Seq::<char>::empty());
        }
        Config {
            deemix_url: text_or(vars.deemix_url, DEFAULT_DEEMIX_URL),
            deemix_arl: text_or(read_arl(&vars.login_file), ""),
            users_file: text_or(vars.users_file, DEFAULT_USERS_FILE),
            audd_api_key: text_or(vars.audd_api_key, ""),
            acrcloud_host: text_or(vars.acrcloud_host, ""),
            acrcloud_access_key: text_or(vars.acrcloud_access_key, ""),
            acrcloud_secret_key: text_or(vars.acrcloud_secret_key, ""),
            openai_api_key: text_or(vars.openai_api_key, ""),
            whisper_url: text_or(vars.whisper_url, ""),
            deemix_bitrate,
            deemix_bitrate_lock,
            whitelist_enabled,
            whitelist_ids,
        }
    }

    pub fn audd_enabled(&self) -> (r: bool)
        ensures
            r == self.deep_view().audd_enabled(),
    {
        !self.audd_api_key.as_str().is_empty()
    }

    pub fn acrcloud_enabled(&self) -> (r: bool)
        ensures
            r == self.deep_view().acrcloud_enabled(),
    {
        !self.acrcloud_access_key.as_str().is_empty()
            && !self.acrcloud_secret_key.as_str().is_empty()
    }

    pub fn whisper_enabled(&self) -> (r: bool)
        ensures
            r == self.deep_view().whisper_enabled(),
    {
        !self.openai_api_key.as_str().is_empty() || !self.whisper_url.as_str().is_empty()
    }

    pub fn is_user_allowed(&self, user_id: i64) -> (r: bool)
        ensures
            r == self.deep_view().is_user_allowed(user_id),
    {
        if !self.whitelist_enabled {
            return true;
        }
        let mut i: usize = 0;
        while i < self.whitelist_ids.len()
            invariant
                self.whitelist_enabled,
                i <= self.whitelist_ids@.len(),
                forall|j: int| 0 <= j < i ==> self.whitelist_ids@[j] != user_id,
            decreases self.whitelist_ids@.len() - i,
        {
            if self.whitelist_ids[i] == user_id {
                return true;
            }
            i += 1;
        }
        false
    }

    pub fn is_whitelist_empty(&self) -> (r: bool)
        ensures
            r == self.deep_view().is_whitelist_empty(),
    {
        self.whitelist_enabled && self.whitelist_ids.len() == 0
    }
}

/// An empty whitelist that is in force lets nobody in.
pub proof fn empty_whitelist_blocks_everyone(c: ConfigView, user_id: i64)
    requires
        c.is_whitelist_empty(),
    ensures
        !c.is_user_allowed(user_id),
{
}

// ── Deemix events ────────────────────────────────────────────────────────────

/// One deemix event, stamped with the nanosecond of its arrival. Only the two
/// outcomes that the answer to a queue request cannot report are kept.
pub struct WsEvent {
    pub ts: u64,
    pub kind: WsEventKind,
}

pub enum WsEventKind {
    /// The server rejected a link while generating download objects.
    QueueError { link: Option<String>, error: String, errid: Option<String> },
    /// The requested object is already in the download queue.
    AlreadyInQueue { title: String, artist: String, size: u64 },
}

pub ghost struct WsEventView {
    pub ts: u64,
    pub kind: WsEventKindView,
}

pub ghost enum WsEventKindView {
    QueueError { link: Option<Seq<char>>, error: Seq<char>, errid: Option<Seq<char>> },
    AlreadyInQueue { title: Seq<char>, artist: Seq<char>, size: u64 },
}

impl DeepView for WsEventKind {
    type V = WsEventKindView;

    open spec fn deep_view(&self) -> WsEventKindView {
        match self {
            WsEventKind::QueueError { link, error, errid } => WsEventKindView::QueueError {
                link: link.deep_view(),
                error: error@,
                errid: errid.deep_view(),
            },
            WsEventKind::AlreadyInQueue { title, artist, size } => WsEventKindView::AlreadyInQueue {
                title: title@,
                artist: artist@,
                size: *size,
            },
        }
    }
}

impl DeepView for WsEvent {
    type V = WsEventView;

    open spec fn deep_view(&self) -> WsEventView {
        WsEventView { ts: self.ts, kind: self.kind.deep_view() }
    }
}

// ── Shared state ─────────────────────────────────────────────────────────────

/// What the bot remembers while it runs.
pub struct BotState {
    pub config: Config,
    pub users: UsersDb,
    /// The Telegram file of each voice note that waits for a choice.
    pub pending_voices: Table<String>,
    /// The bitrate of new downloads.
    pub current_bitrate: u8,
    /// The ARL for logging in again.
    pub current_arl: String,
    /// Recent deemix events, oldest first.
    pub ws_events: VecDeque<WsEvent>,
    /// The chat that asked for a queue object, and the object's title.
    pub queue_initiators: Table<(i64, String)>,
}

impl BotState {
    pub fn new(config: Config, users: UsersDb) -> (r: Self)
        ensures
            r.config == config,
            r.users == users,
            r.pending_voices@ == Map::<Seq<char>, String>::empty(),
            r.current_bitrate == config.deemix_bitrate,
            r.current_arl@ == config.deemix_arl@,
            r.ws_events@ == Seq::<WsEvent>::empty(),
            r.queue_initiators@ == Map::<Seq<char>, (i64, String)>::empty(),
    {
        let current_bitrate: u8 = config.deemix_bitrate;
        let current_arl = config.deemix_arl.clone();
        BotState {
            config,
            users,
            pending_voices: Table::new(),
            current_bitrate,
            current_arl,
            ws_events: VecDeque::new(),
            queue_initiators: Table::new(),
        }
    }
}

/// Everything but the users, the waiting voice notes and the bitrate is the
/// same in both states.
pub open spec fn rest_unchanged(before: BotState, after: BotState) -> bool {
    &&& after.config == before.config
    &&& after.current_arl == before.current_arl
    &&& after.ws_events == before.ws_events
    &&& after.queue_initiators == before.queue_initiators
}

// ── What holds of configurations ─────────────────────────────────────────────

/// With a whitelist exactly its users are let in, and without one everybody is.
pub proof fn the_whitelist_lets_in_its_users(c: ConfigView, user_id: i64)
    ensures
        c.whitelist_enabled ==> (c.is_user_allowed(user_id) <==> c.whitelist_ids.contains(
            user_id,
        )),
        !c.whitelist_enabled ==> c.is_user_allowed(user_id),
        c.is_whitelist_empty() <==> c.whitelist_enabled && c.whitelist_ids =~= Seq::<i64>::empty(),
        c.whisper_enabled() <==> c.openai_api_key.len() > 0 || c.whisper_url.len() > 0,
        c.acrcloud_enabled() <==> c.acrcloud_access_key.len() > 0 && c.acrcloud_secret_key.len()
            > 0,
        c.audd_enabled() <==> c.audd_api_key.len() > 0,
{
}

/// The ids of a list are read in order, each on its own, whatever space stands
/// around it; what is no number is passed over.
pub proof fn ids_are_read_one_by_one(
    a: Seq<Seq<char>>,
    b: Seq<Seq<char>>,
    before: Seq<char>,
    id: i64,
    behind: Seq<char>,
    other: Seq<char>,
)
    requires
        crate::text::is_all_white(before),
        crate::text::is_all_white(behind),
        crate::text::parsed_i64(crate::text::trimmed(other)) is None,
    ensures
        ids_among(a + b) == ids_among(a) + ids_among(b),
        ids_among(seq![before + crate::text::signed_decimal(id as int) + behind]) == seq![id],
        ids_among(seq![other]).len() == 0,
    decreases b.len(),
{
    let written = crate::text::signed_decimal(id as int);
    let piece = before + written + behind;
    crate::text::written_i64_reads_back(id);
    let magnitude: nat = if id < 0 {
        (-id) as nat
    } else {
        id as nat
    };
    crate::text::lemma_decimal_digits(magnitude);
    let digits = crate::text::decimal(magnitude);
    assert(crate::text::is_digit(digits[0]));
    assert(crate::text::is_digit(digits[digits.len() - 1]));
    assert(written.last() == digits.last());
    assert(crate::text::has_no_outer_space(written));
    crate::text::trimming_takes_the_outer_space(before, written, behind);
    assert(seq![piece].drop_last() =~= Seq::<Seq<char>>::empty());
    assert(ids_among(seq![piece].drop_last()) =~= Seq::<i64>::empty());
    assert(ids_among(seq![piece]) =~= seq![id]);
    assert(seq![other].drop_last() =~= Seq::<Seq<char>>::empty());
    assert(ids_among(seq![other].drop_last()) =~= Seq::<i64>::empty());
    if b.len() == 0 {
        assert(a + b =~= a);
        assert(ids_among(a) + ids_among(b) =~= ids_among(a));
    } else {
        ids_are_read_one_by_one(a, b.drop_last(), before, id, behind, other);
        assert((a + b).drop_last() =~= a + b.drop_last());
        assert((a + b).last() == b.last());
        assert(ids_among(a + b) =~= ids_among(a) + ids_among(b));
    }
}

/// A configuration is what the environment says, and has its defaults where that
/// says nothing.
pub proof fn the_environment_is_followed(vars: Environment, c: Config)
    requires
        call_ensures(Config::from_env, (vars,), c),
    ensures
        vars.deemix_url matches Some(v) ==> c.deemix_url@ == v@,
        vars.deemix_url is None ==> c.deemix_url@ == "http://localhost:6595"@,
        vars.users_file matches Some(v) ==> c.users_file@ == v@,
        vars.users_file is None ==> c.users_file@ == "/config/telegram_bot/users.json"@,
        vars.audd_api_key matches Some(v) ==> c.audd_api_key@ == v@,
        vars.audd_api_key is None ==> c.audd_api_key@.len() == 0,
        vars.acrcloud_host matches Some(v) ==> c.acrcloud_host@ == v@,
        vars.acrcloud_host is None ==> c.acrcloud_host@.len() == 0,
        vars.acrcloud_access_key matches Some(v) ==> c.acrcloud_access_key@ == v@,
        vars.acrcloud_access_key is None ==> c.acrcloud_access_key@.len() == 0,
        vars.acrcloud_secret_key matches Some(v) ==> c.acrcloud_secret_key@ == v@,
        vars.acrcloud_secret_key is None ==> c.acrcloud_secret_key@.len() == 0,
        vars.openai_api_key matches Some(v) ==> c.openai_api_key@ == v@,
        vars.openai_api_key is None ==> c.openai_api_key@.len() == 0,
        vars.whisper_url matches Some(v) ==> c.whisper_url@ == v@,
        vars.whisper_url is None ==> c.whisper_url@.len() == 0,
        vars.bot_bitrate is None ==> c.deemix_bitrate == 9,
        vars.bot_bitrate matches Some(v) ==> forall|n: nat|
            v@ == #[trigger] crate::text::decimal(n) ==> c.deemix_bitrate == (if n <= 255 {
                n as u8
            } else {
                9
            }),
        vars.deemix_bitrate_lock is None ==> !c.deemix_bitrate_lock,
        vars.deemix_bitrate_lock matches Some(v) ==> (vstd::utf8::is_ascii_chars(v@) ==> (
        c.deemix_bitrate_lock <==> crate::text::ascii_lowered(v@) == "true"@)),
        vars.whitelist_enabled is None ==> c.whitelist_enabled,
        vars.whitelist_enabled matches Some(v) ==> (vstd::utf8::is_ascii_chars(v@) ==> (
        c.whitelist_enabled <==> crate::text::ascii_lowered(v@) == "true"@)),
        vars.whitelist_ids is None ==> c.whitelist_ids@.len() == 0,
        vars.whitelist_ids matches Some(v) ==> c.whitelist_ids@ == ids_among(
            crate::text::split_at_char(v@, ','),
        ),
        vars.login_file is None ==> c.deemix_arl@.len() == 0,
        vars.login_file matches Some(v) ==> (crate::json::json_document(v@) matches Some(d) ==> (
        d.field("arl"@) matches crate::json::JsonView::Str(arl) ==> c.deemix_arl@ == arl)),
{
    if vars.bot_bitrate is Some {
        assert forall|n: nat|
            vars.bot_bitrate->0@ == #[trigger] crate::text::decimal(n) implies c.deemix_bitrate
            == (if n <= 255 {
            n as u8
        } else {
            9
        }) by {
            crate::text::numbers_read_back(n);
        }
    }
}

/// A bot starts with its configuration, with nothing awaited and nothing heard.
pub proof fn a_bot_starts_from_its_configuration(config: Config, users: UsersDb, state: BotState)
    requires
        call_ensures(BotState::new, (config, users), state),
    ensures
        state.config == config,
        state.users == users,
        state.current_bitrate == config.deemix_bitrate,
        state.current_arl@ == config.deemix_arl@,
        state.pending_voices@.dom().len() == 0,
        state.ws_events@.len() == 0,
        state.queue_initiators@.dom().len() == 0,
{
}

} // verus!
