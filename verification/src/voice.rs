//! Voice notes.
//!
//! A voice note is transcribed and searched for, or the song in it is
//! recognised. Speech goes to OpenAI where its key is set, else to a compatible
//! local server where its address is set; songs go to ACRCloud.

use vstd::prelude::*;

use base64::Engine;
use hmac::{KeyInit, Mac};

use crate::search::{build_search_results, offer_results};
use crate::config::{BotState, Config};
use crate::flow::{
    callback, cancel_button, edit, edit_with, link_button, row, send, send_with, Action,
    AfterSearch, AfterSpotify, Button, Pending, SearchKind, Step, VoiceOrigin, VoiceTask,
};
use crate::http::{upload, Response, TextResponse, Upload};
use crate::json::{joined_names, Json};
use crate::spotify::SpotifyMeta;
use crate::text::{
    i64_text, join, percent_encode, replace_char, split_whitespace, starts_with, strip_prefix, trim,
    u64_text, usize_text,
};
use crate::users::get_or_create;

verus! {

// ── Transcription ────────────────────────────────────────────────────────────

/// The upload that has a recording transcribed, given OpenAI's key and the
/// address of a compatible server.
pub open spec fn transcription_view(
    audio: Seq<u8>,
    openai_key: Seq<char>,
    whisper_url: Seq<char>,
) -> Result<crate::http::UploadView, Seq<char>> {
    if openai_key.len() > 0 {
        Ok(
            crate::http::bare_upload(
                "https://api.openai.com/v1/audio/transcriptions"@,
                "file"@,
                audio,
            ).with_field("model"@, "whisper-1"@).with_field(
                "response_format"@,
                "text"@,
            ).with_header("Authorization"@, "Bearer "@ + openai_key),
        )
    } else if whisper_url.len() > 0 {
        Ok(
            crate::http::bare_upload(whisper_url, "file"@, audio).with_field(
                "model"@,
                "whisper-1"@,
            ).with_field("response_format"@, "text"@),
        )
    } else {
        Err("Voice search is not configured."@)
    }
}

/// The upload that has a recording transcribed.
pub fn transcribe_request(audio: Vec<u8>, openai_key: &str, whisper_url: &str) -> (r: Result<
    Upload,
    String,
>)
    ensures
        crate::flow::result_view(r) == transcription_view(audio@, openai_key@, whisper_url@),
{
    if !openai_key.is_empty() {
        let address = "https://api.openai.com/v1/audio/transcriptions".to_owned();
        let auth = "Bearer ".to_owned().concat(openai_key);
        Ok(
            upload(address, "file", audio).field("model", "whisper-1").field(
                "response_format",
                "text",
            ).header("Authorization", auth.as_str()),
        )
    } else if !whisper_url.is_empty() {
        Ok(
            upload(whisper_url.to_owned(), "file", audio).field("model", "whisper-1").field(
                "response_format",
                "text",
            ),
        )
    } else {
        Err("Voice search is not configured.".to_owned())
    }
}

/// The text of a recording, or why there is none.
pub open spec fn transcript(reply: Result<TextResponse, String>) -> Result<Seq<char>, Seq<char>> {
    match reply {
        Ok(response) => if response.answer.success {
            match response.body {
                Ok(text) => Ok(crate::text::trimmed(text@)),
                Err(e) => Err(e@),
            }
        } else {
            Err("Whisper API error: "@ + response.answer.status@)
        },
        Err(e) => Err(e@),
    }
}

/// The text of a recording.
pub fn transcribe(reply: Result<TextResponse, String>) -> (r: Result<String, String>)
    ensures
        crate::flow::result_view(r) == transcript(reply),
{
    match reply {
        Ok(response) => if response.answer.success {
            match response.body {
                Ok(text) => Ok(trim(text.as_str())),
                Err(e) => Err(e),
            }
        } else {
            Err("Whisper API error: ".to_owned().concat(response.answer.status.as_str()))
        },
        Err(e) => Err(e),
    }
}

// ── Recognition ──────────────────────────────────────────────────────────────

/// A recognised song. Its Deezer link is preferred, then what its Spotify link
/// stands for, then a search for its names.
pub struct RecognitionResult {
    pub title: String,
    pub artist: String,
    pub deezer_url: Option<String>,
    pub spotify_url: Option<String>,
}

pub ghost struct RecognitionView {
    pub title: Seq<char>,
    pub artist: Seq<char>,
    pub deezer_url: Option<Seq<char>>,
    pub spotify_url: Option<Seq<char>>,
}

impl DeepView for RecognitionResult {
    type V = RecognitionView;

    open spec fn deep_view(&self) -> RecognitionView {
        RecognitionView {
            title: self.title@,
            artist: self.artist@,
            deezer_url: self.deezer_url.deep_view(),
            spotify_url: self.spotify_url.deep_view(),
        }
    }
}

/// The HMAC-SHA1 code of a message under a key.
pub uninterp spec fn hmac_sha1_code(key: Seq<u8>, message: Seq<u8>) -> Seq<u8>;

/// Calls `Hmac::<Sha1>::new_from_slice`, `update` and `finalize`. The contract
/// names the code and says that a key of any length is taken.
#[verifier::external_body]
fn hmac_sha1(key: &[u8], message: &[u8]) -> (r: Result<[u8; 20], String>)
    ensures
        r is Ok && r->Ok_0@ == hmac_sha1_code(key@, message@),
{
    let mut mac = hmac::Hmac::<sha1::Sha1>::new_from_slice(key).map_err(|e| e.to_string())?;
    mac.update(message);
    Ok(mac.finalize().into_bytes().into())
}

/// The character of the base64 alphabet for the value `d`, for `d < 64`.
pub open spec fn base64_char(d: int) -> char {
    if d < 26 {
        (65 + d) as char
    } else if d < 52 {
        (71 + d) as char
    } else if d < 62 {
        (d - 4) as char
    } else if d == 62 {
        '+'
    } else {
        '/'
    }
}

/// The padded base64 form of some bytes: four characters for each three bytes.
pub open spec fn base64_of(b: Seq<u8>) -> Seq<char>
    decreases b.len(),
{
    if b.len() == 0 {
        Seq::empty()
    } else if b.len() == 1 {
        seq![base64_char(b[0] as int / 4), base64_char(b[0] as int % 4 * 16), '=', '=']
    } else if b.len() == 2 {
        seq![
            base64_char(b[0] as int / 4),
            base64_char(b[0] as int % 4 * 16 + b[1] as int / 16),
            base64_char(b[1] as int % 16 * 4),
            '=',
        ]
    } else {
        seq![
            base64_char(b[0] as int / 4),
            base64_char(b[0] as int % 4 * 16 + b[1] as int / 16),
            base64_char(b[1] as int % 16 * 4 + b[2] as int / 64),
            base64_char(b[2] as int % 64),
        ] + base64_of(b.skip(3))
    }
}

/// Calls `Engine::encode` of the engine `base64::engine::general_purpose::STANDARD`.
/// The contract says that the result is the padded base64 form in the standard
/// alphabet.
#[verifier::external_body]
fn base64_encode(bytes: &[u8; 20]) -> (r: String)
    ensures
        r@ == base64_of(bytes@),
{
    base64::engine::general_purpose::STANDARD.encode(bytes)
}

/// The size of a recording that is too long to be recognised, in bytes.
pub const SAMPLE_LIMIT: usize = 5242880;

/// What is signed of a request.
pub open spec fn string_to_sign(access_key: Seq<char>, ts: u64) -> Seq<char> {
    "POST\n/v1/identify\n"@ + access_key + "\naudio\n1\n"@ + crate::text::decimal(ts as nat)
}

/// The upload that has a song recognised, given its signature.
pub open spec fn identify_view(
    audio: Seq<u8>,
    cfg: crate::config::ConfigView,
    ts: u64,
    signature: Seq<char>,
) -> crate::http::UploadView {
    crate::http::bare_upload(
        "https://"@ + cfg.acrcloud_host + "/v1/identify"@,
        "sample"@,
        audio,
    ).with_field("access_key"@, cfg.acrcloud_access_key).with_field(
        "sample_bytes"@,
        crate::text::decimal(audio.len()),
    ).with_field("timestamp"@, crate::text::decimal(ts as nat)).with_field(
        "signature"@,
        signature,
    ).with_field("data_type"@, "audio"@).with_field("signature_version"@, "1"@)
}

/// The upload that has a song recognised, given the code that signs it.
pub fn identify_upload(audio: Vec<u8>, cfg: &Config, ts: u64, code: &[u8; 20]) -> (r: Upload)
    ensures
        r.deep_view() == identify_view(audio@, cfg.deep_view(), ts, base64_of(code@)),
{
    let address = "https://".to_owned().concat(cfg.acrcloud_host.as_str()).concat("/v1/identify");
    let size: usize = audio.len();
    upload(address, "sample", audio).field("access_key", cfg.acrcloud_access_key.as_str()).field(
        "sample_bytes",
        usize_text(size).as_str(),
    ).field("timestamp", u64_text(ts).as_str()).field(
        "signature",
        base64_encode(code).as_str(),
    ).field("data_type", "audio").field("signature_version", "1")
}

/// The upload that has a song recognised, or why there is none. `clock` is the
/// time in seconds since 1970, or why it could not be told.
pub open spec fn recognition_view(
    audio: Seq<u8>,
    cfg: crate::config::ConfigView,
    clock: Result<u64, Seq<char>>,
) -> Result<crate::http::UploadView, Seq<char>> {
    if !cfg.acrcloud_enabled() {
        Err("Song recognition is not configured."@)
    } else if cfg.acrcloud_host.len() == 0 {
        Err("ACRCloud Host is not configured. Set it in the add-on options."@)
    } else if audio.len() >= SAMPLE_LIMIT {
        Err("Voice note too long for song recognition."@)
    } else {
        match clock {
            Ok(ts) => Ok(
                identify_view(
                    audio,
                    cfg,
                    ts,
                    base64_of(
                        hmac_sha1_code(
                            vstd::utf8::encode_utf8(cfg.acrcloud_secret_key),
                            vstd::utf8::encode_utf8(string_to_sign(cfg.acrcloud_access_key, ts)),
                        ),
                    ),
                ),
            ),
            Err(e) => Err(e),
        }
    }
}

/// The upload that has a song recognised, signed with the secret key.
pub fn recognize_request(audio: Vec<u8>, cfg: &Config, clock: Result<u64, String>) -> (r: Result<
    Upload,
    String,
>)
    ensures
        crate::flow::result_view(r) == recognition_view(
            audio@,
            cfg.deep_view(),
            crate::flow::result_view(clock),
        ),
{
    if !cfg.acrcloud_enabled() {
        return Err("Song recognition is not configured.".to_owned());
    }
    if cfg.acrcloud_host.as_str().is_empty() {
        return Err("ACRCloud Host is not configured. Set it in the add-on options.".to_owned());
    }
    if audio.len() >= SAMPLE_LIMIT {
        return Err("Voice note too long for song recognition.".to_owned());
    }
    match clock {
        Ok(ts) => {
            let signed = "POST\n/v1/identify\n".to_owned().concat(
                cfg.acrcloud_access_key.as_str(),
            ).concat("\naudio\n1\n").concat(u64_text(ts).as_str());
            let secret = cfg.acrcloud_secret_key.as_str();
            match hmac_sha1(secret.as_bytes(), signed.as_str().as_bytes()) {
                Ok(code) => Ok(identify_upload(audio, cfg, ts, &code)),
                Err(e) => Err(e),
            }
        },
        Err(e) => Err(e),
    }
}

/// What is said where no song was recognised.
pub const NOT_RECOGNIZED: &'static str = "Song not recognized. Try a longer clip.";

/// The song in an answer of ACRCloud.
pub open spec fn song_in(data: crate::json::JsonView) -> Result<RecognitionView, Seq<char>> {
    let status = data.field("status"@);
    let code = match status.field("code"@).signed() {
        Some(c) => c as int,
        None => -1,
    };
    let music = data.field("metadata"@).field("music"@).item(0);
    let title = music.field("title"@).str_or(""@);
    let links = music.field("external_metadata"@);
    if code == 1001 {
        Err(NOT_RECOGNIZED@)
    } else if code != 0 {
        Err(
            "ACRCloud API error ("@ + crate::text::signed_decimal(code) + "): "@ + status.field(
                "msg"@,
            ).str_or("unknown"@),
        )
    } else if title.len() == 0 {
        Err(NOT_RECOGNIZED@)
    } else {
        Ok(
            RecognitionView {
                title,
                artist: crate::text::joined(
                    crate::json::names_of(music.field("artists"@).items()),
                    ", "@,
                ),
                deezer_url: match links.field("deezer"@).field("track"@).field("id"@).str() {
                    Some(id) => Some("https://www.deezer.com/track/"@ + id),
                    None => None,
                },
                spotify_url: match links.field("spotify"@).field("track"@).field("id"@).str() {
                    Some(id) => Some("https://open.spotify.com/track/"@ + id),
                    None => None,
                },
            },
        )
    }
}

fn song_of(data: &Json) -> (r: Result<RecognitionResult, String>)
    ensures
        crate::flow::result_view(r) == song_in(data.deep_view()),
{
    let status = data.field("status");
    let code: i64 = match status.field("code").as_i64() {
        Some(c) => c,
        None => -1,
    };
    if code != 0 {
        return Err(
            if code == 1001 {
                NOT_RECOGNIZED.to_owned()
            } else {
                "ACRCloud API error (".to_owned().concat(i64_text(code).as_str()).concat(
                    "): ",
                ).concat(status.field("msg").str_or("unknown"))
            },
        );
    }
    let music = data.field("metadata").field("music").item(0);
    let title = music.field("title").str_or("").to_owned();
    if title.as_str().is_empty() {
        return Err(NOT_RECOGNIZED.to_owned());
    }
    let artist = joined_names(music.field("artists"));
    let links = music.field("external_metadata");
    let deezer_url = match links.field("deezer").field("track").field("id").as_str() {
        Some(id) => Some("https://www.deezer.com/track/".to_owned().concat(id)),
        None => None,
    };
    let spotify_url = match links.field("spotify").field("track").field("id").as_str() {
        Some(id) => Some("https://open.spotify.com/track/".to_owned().concat(id)),
        None => None,
    };
    Ok(RecognitionResult { title, artist, deezer_url, spotify_url })
}

/// The song in a recording, or why there is none.
pub open spec fn recognition(reply: Result<Response, String>) -> Result<
    RecognitionView,
    Seq<char>,
> {
    match reply {
        Ok(response) => if response.answer.success {
            match response.body {
                Ok(data) => song_in(data.deep_view()),
                Err(e) => Err(e@),
            }
        } else {
            Err("ACRCloud API error: HTTP "@ + response.answer.status@)
        },
        Err(e) => Err(e@),
    }
}

/// The song in a recording.
pub fn recognize(reply: Result<Response, String>) -> (r: Result<RecognitionResult, String>)
    ensures
        crate::flow::result_view(r) == recognition(reply),
{
    match reply {
        Ok(response) => if response.answer.success {
            match response.body {
                Ok(data) => song_of(&data),
                Err(e) => Err(e),
            }
        } else {
            Err("ACRCloud API error: HTTP ".to_owned().concat(response.answer.status.as_str()))
        },
        Err(e) => Err(e),
    }
}

// ── A voice note arrives ─────────────────────────────────────────────────────

/// The key under which the voice note of a message waits for a choice. It is
/// short, for the data of a button may have no more than 64 bytes.
pub open spec fn voice_key(message_id: i32) -> Seq<char> {
    crate::text::signed_decimal(message_id as int)
}

/// The buttons under a voice note.
pub open spec fn voice_choices(whisper_on: bool, recog_on: bool, key: Seq<char>) -> Seq<
    Seq<crate::flow::ButtonView>,
> {
    let speech = if whisper_on {
        seq![
            seq![
                crate::flow::ButtonView::Callback {
                    label: "🎤 Transcribe what I said"@,
                    data: "vt:"@ + key,
                },
            ],
        ]
    } else {
        Seq::<Seq<crate::flow::ButtonView>>::empty()
    };
    let song = if recog_on {
        seq![
            seq![
                crate::flow::ButtonView::Callback {
                    label: "🎵 Recognize the song"@,
                    data: "vr:"@ + key,
                },
            ],
        ]
    } else {
        Seq::<Seq<crate::flow::ButtonView>>::empty()
    };
    speech + song + seq![crate::flow::cancel_row()]
}

/// Whether speech in voice notes is on offer to a user.
pub open spec fn speech_on(
    s: crate::users::UserSettings,
    config: crate::config::ConfigView,
) -> bool {
    config.whisper_enabled() && s.voice_search
}

/// Whether songs in voice notes are on offer to a user.
pub open spec fn songs_on(s: crate::users::UserSettings, config: crate::config::ConfigView) -> bool {
    config.acrcloud_enabled() && s.song_recognition
}

/// The step for a voice note that nothing had asked for.
pub open spec fn voice_note_step(
    s: crate::users::UserSettings,
    config: crate::config::ConfigView,
    message_id: i32,
) -> crate::flow::StepView {
    let begun = crate::flow::idle().act(crate::flow::ActionView::ExitDialogue);
    if !songs_on(s, config) && !speech_on(s, config) {
        begun.act(
            crate::flow::sent(
                "⚠️ Voice features are not configured or disabled. Use /settings to manage them."@,
            ),
        )
    } else {
        begun.act(
            crate::flow::sent_with(
                "🎙️ What should I do with this voice note?"@,
                voice_choices(speech_on(s, config), songs_on(s, config), voice_key(message_id)),
            ),
        )
    }
}

/// The voice notes that wait for a choice once another one has arrived.
pub open spec fn voices_after(
    voices: Map<Seq<char>, Seq<char>>,
    s: crate::users::UserSettings,
    config: crate::config::ConfigView,
    message_id: i32,
    file_id: Seq<char>,
) -> Map<Seq<char>, Seq<char>> {
    if songs_on(s, config) || speech_on(s, config) {
        voices.insert(voice_key(message_id), file_id)
    } else {
        voices
    }
}

/// Asks what to do with a voice note, and remembers its file.
pub fn handle_voice_message(
    state: &mut BotState,
    user_id: i64,
    message_id: i32,
    file_id: &str,
) -> (r: Step)
    ensures
        r.deep_view() == voice_note_step(
            crate::users::settings_of(old(state).users@, user_id),
            old(state).config.deep_view(),
            message_id,
        ),
        final(state).users@ == old(state).users@.insert(
            crate::users::user_key(user_id),
            crate::users::settings_of(old(state).users@, user_id),
        ),
        final(state).pending_voices.deep_view() == voices_after(
            old(state).pending_voices.deep_view(),
            crate::users::settings_of(old(state).users@, user_id),
            old(state).config.deep_view(),
            message_id,
            file_id@,
        ),
        final(state).current_bitrate == old(state).current_bitrate,
        crate::config::rest_unchanged(*old(state), *final(state)),
{
    let begun = Step::new().act(Action::ExitDialogue);
    let settings = get_or_create(&mut state.users, user_id);
    let recog_on = state.config.acrcloud_enabled() && settings.song_recognition;
    let whisper_on = state.config.whisper_enabled() && settings.voice_search;
    if !recog_on && !whisper_on {
        return begun.act(
            send(
                "⚠️ Voice features are not configured or disabled. Use /settings to manage them.",
            ),
        );
    }
    let short_id = i64_text(message_id as i64);
    let ghost before = state.pending_voices@;
    let file = file_id.to_owned();
    state.pending_voices.insert(short_id.clone(), file);
    proof {
        assert(state.pending_voices.deep_view() =~= before.map_values(
            |v: String| v.deep_view(),
        ).insert(short_id@, file@));
    }
    let mut buttons: Vec<Vec<Button>> = Vec::new();
    if whisper_on {
        let data = "vt:".to_owned().concat(short_id.as_str());
        buttons.push(row(callback("🎤 Transcribe what I said", data.as_str())));
    }
    if recog_on {
        let data = "vr:".to_owned().concat(short_id.as_str());
        buttons.push(row(callback("🎵 Recognize the song", data.as_str())));
    }
    buttons.push(cancel_button());
    assert(buttons.deep_view() =~= voice_choices(whisper_on, recog_on, short_id@));
    begun.act(send_with("🎙️ What should I do with this voice note?", buttons))
}

/// The step for a tap on a button under a voice note, given the voice notes
/// that wait for a choice.
pub open spec fn voice_tap_step(voices: Map<Seq<char>, Seq<char>>, data: Seq<char>) -> crate::flow::StepView {
    let task = if crate::text::has_prefix(data, "vt:"@) {
        VoiceTask::Transcribe
    } else {
        VoiceTask::Recognize
    };
    let key = data.skip(3);
    if voices.contains_key(key) {
        crate::flow::idle().act(crate::flow::edited("⏳ Processing voice note..."@)).wait(
            crate::flow::PendingView::FetchVoice {
                file_id: voices[key],
                task,
                origin: VoiceOrigin::Button,
            },
        )
    } else {
        crate::flow::idle().act(
            crate::flow::edited("❌ Voice note expired. Please send it again."@),
        )
    }
}

/// Whether the data of a button belongs to a voice note.
pub open spec fn is_voice_data(data: Seq<char>) -> bool {
    crate::text::has_prefix(data, "vt:"@) || crate::text::has_prefix(data, "vr:"@)
}

/// Starts on a voice note after a tap on a button under it. A tap without its
/// message, or with other data, is passed over.
pub fn handle_voice_callback(state: &BotState, data: &str, has_message: bool) -> (r: Step)
    ensures
        r.deep_view() == if is_voice_data(data@) && has_message {
            voice_tap_step(state.pending_voices.deep_view(), data@)
        } else {
            crate::flow::idle()
        },
{
    proof {
        reveal_strlit("vt:");
        reveal_strlit("vr:");
    }
    if !has_message {
        return Step::new();
    }
    let (short_id, task) = match strip_prefix(data, "vt:") {
        Some(id) => (id, VoiceTask::Transcribe),
        None => match strip_prefix(data, "vr:") {
            Some(id) => (id, VoiceTask::Recognize),
            None => {
                return Step::new();
            },
        },
    };
    match state.pending_voices.get(short_id.as_str()) {
        Some(file_id) => Step::new().act(edit("⏳ Processing voice note...")).wait(
            Pending::FetchVoice { file_id: file_id.clone(), task, origin: VoiceOrigin::Button },
        ),
        None => Step::new().act(edit("❌ Voice note expired. Please send it again.")),
    }
}

// ── The dialogue has asked for a voice note ──────────────────────────────────

/// The step for a message where the dialogue had asked for a voice note.
pub open spec fn awaited_step(task: VoiceTask, file_id: Option<Seq<char>>) -> crate::flow::StepView {
    let begun = crate::flow::idle().act(crate::flow::ActionView::ExitDialogue);
    match file_id {
        Some(file_id) => begun.act(
            crate::flow::sent(
                match task {
                    VoiceTask::Transcribe => "🎤 Transcribing..."@,
                    VoiceTask::Recognize => "🎵 Recognizing song..."@,
                },
            ),
        ).wait(
            crate::flow::PendingView::FetchVoice { file_id, task, origin: VoiceOrigin::Dialogue },
        ),
        None => begun.act(
            crate::flow::sent("⚠️ I expected a voice note. Use /menu to try again."@),
        ),
    }
}

fn receive_voice(task: VoiceTask, note: &str, file_id: &Option<String>) -> (r: Step)
    requires
        note@ == match task {
            VoiceTask::Transcribe => "🎤 Transcribing..."@,
            VoiceTask::Recognize => "🎵 Recognizing song..."@,
        },
    ensures
        r.deep_view() == awaited_step(task, file_id.deep_view()),
{
    let begun = Step::new().act(Action::ExitDialogue);
    match file_id {
        Some(file_id) => begun.act(send(note)).wait(
            Pending::FetchVoice { file_id: file_id.clone(), task, origin: VoiceOrigin::Dialogue },
        ),
        None => begun.act(send("⚠️ I expected a voice note. Use /menu to try again.")),
    }
}

pub fn receive_voice_transcribe(file_id: &Option<String>) -> (r: Step)
    ensures
        r.deep_view() == awaited_step(VoiceTask::Transcribe, file_id.deep_view()),
{
    receive_voice(VoiceTask::Transcribe, "🎤 Transcribing...", file_id)
}

pub fn receive_voice_recognize(file_id: &Option<String>) -> (r: Step)
    ensures
        r.deep_view() == awaited_step(VoiceTask::Recognize, file_id.deep_view()),
{
    receive_voice(VoiceTask::Recognize, "🎵 Recognizing song...", file_id)
}

// ── The recording is there ───────────────────────────────────────────────────

/// What came of fetching a voice note.
pub enum Fetched {
    Audio(Vec<u8>),
    /// The request failed.
    NotDownloaded(String),
    /// The answer could not be read.
    NotRead(String),
}

/// The step once a voice note was fetched. Where the dialogue had asked for it,
/// an unreadable answer ends the handling.
pub open spec fn fetched_step(
    task: VoiceTask,
    origin: VoiceOrigin,
    fetched: Fetched,
) -> crate::flow::StepView {
    match fetched {
        Fetched::Audio(audio) => crate::flow::idle().wait(
            match task {
                VoiceTask::Transcribe => crate::flow::PendingView::Transcribe { audio: audio@ },
                VoiceTask::Recognize => crate::flow::PendingView::Recognize { audio: audio@ },
            },
        ),
        Fetched::NotDownloaded(e) => crate::flow::idle().act(
            crate::flow::edited("❌ Failed to download audio: "@ + e@),
        ),
        Fetched::NotRead(e) => match origin {
            VoiceOrigin::Button => crate::flow::idle().act(
                crate::flow::edited("❌ Failed to read audio: "@ + e@),
            ),
            VoiceOrigin::Dialogue => crate::flow::idle().wait(
                crate::flow::PendingView::Fail { error: e@ },
            ),
        },
    }
}

/// Has a fetched voice note transcribed or recognised.
pub fn voice_fetched(task: VoiceTask, origin: VoiceOrigin, fetched: Fetched) -> (r: Step)
    ensures
        r.deep_view() == fetched_step(task, origin, fetched),
{
    match fetched {
        Fetched::Audio(audio) => match task {
            VoiceTask::Transcribe => Step::new().wait(Pending::Transcribe { audio }),
            VoiceTask::Recognize => Step::new().wait(Pending::Recognize { audio }),
        },
        Fetched::NotDownloaded(e) => Step::new().act(
            edit("❌ Failed to download audio: ".to_owned().concat(e.as_str()).as_str()),
        ),
        Fetched::NotRead(e) => match origin {
            VoiceOrigin::Button => Step::new().act(
                edit("❌ Failed to read audio: ".to_owned().concat(e.as_str()).as_str()),
            ),
            VoiceOrigin::Dialogue => Step::new().wait(Pending::Fail { error: e }),
        },
    }
}

/// The step once a recording was transcribed.
pub open spec fn transcribed_step(result: Result<Seq<char>, Seq<char>>) -> crate::flow::StepView {
    match result {
        Ok(text) => if text.len() == 0 {
            crate::flow::idle().act(
                crate::flow::edited(
                    "😕 Could not transcribe anything. Try speaking more clearly."@,
                ),
            )
        } else {
            crate::flow::idle().act(
                crate::flow::edited("🔍 I heard: "@ + text + "\nSearching..."@),
            ).act(crate::flow::sent("Results for: "@ + text)).wait(
                crate::flow::PendingView::Search {
                    query: text,
                    kind: SearchKind::Track,
                    after: crate::flow::AfterSearchView::Heard { text },
                },
            )
        },
        Err(e) => crate::flow::idle().act(crate::flow::edited("❌ Transcription failed: "@ + e)),
    }
}

/// Searches for what was said.
pub fn process_voice_transcribe(result: Result<String, String>) -> (r: Step)
    ensures
        r.deep_view() == transcribed_step(crate::flow::result_view(result)),
{
    match result {
        Ok(text) => if text.as_str().is_empty() {
            Step::new().act(
                edit("😕 Could not transcribe anything. Try speaking more clearly."),
            )
        } else {
            let heard = "🔍 I heard: ".to_owned().concat(text.as_str()).concat("\nSearching...");
            let sent = "Results for: ".to_owned().concat(text.as_str());
            Step::new().act(edit(heard.as_str())).act(send(sent.as_str())).wait(
                Pending::Search {
                    query: text.clone(),
                    kind: SearchKind::Track,
                    after: AfterSearch::Heard { text },
                },
            )
        },
        Err(e) => Step::new().act(
            edit("❌ Transcription failed: ".to_owned().concat(e.as_str()).as_str()),
        ),
    }
}

/// The step once what was said was searched for.
pub open spec fn heard_step(
    text: Seq<char>,
    results: Result<Seq<crate::json::JsonView>, Seq<char>>,
) -> crate::flow::StepView {
    match results {
        Ok(found) => if found.len() == 0 {
            crate::flow::idle().act(crate::flow::edited("😕 No results for: "@ + text))
        } else {
            crate::flow::idle().act(crate::search::offer(text, found, "🎵"@))
        },
        Err(e) => crate::flow::idle().act(crate::flow::edited("❌ Search failed: "@ + e)),
    }
}

/// Shows the results for what was said.
pub fn heard_searched(text: &str, results: Result<Vec<Json>, String>) -> (r: Step)
    ensures
        r.deep_view() == heard_step(text@, crate::flow::result_view(results)),
{
    match results {
        Ok(found) => {
            assert(found.deep_view().len() == found@.len());
            if found.len() == 0 {
                Step::new().act(edit("😕 No results for: ".to_owned().concat(text).as_str()))
            } else {
                Step::new().act(offer_results(text, &found, "🎵"))
            }
        },
        Err(e) => Step::new().act(
            edit("❌ Search failed: ".to_owned().concat(e.as_str()).as_str()),
        ),
    }
}

// ── The song is recognised ───────────────────────────────────────────────────

/// What to search for, from the names of a song.
pub open spec fn song_query_of(song: RecognitionView) -> Seq<char> {
    crate::text::joined(
        crate::text::words(
            crate::text::with_char(song.title + " "@ + song.artist, '&', ' '),
        ),
        " "@,
    )
}

pub fn song_query(song: &RecognitionResult) -> (r: String)
    ensures
        r@ == song_query_of(song.deep_view()),
{
    let names = song.title.clone().concat(" ").concat(song.artist.as_str());
    join(&split_whitespace(replace_char(names.as_str(), '&', ' ').as_str()), " ")
}

/// What a song is called.
pub open spec fn song_name(song: RecognitionView) -> Seq<char> {
    song.title + " — "@ + song.artist
}

/// The step that searches for a song, after `actions`.
pub open spec fn song_search_step(
    actions: Seq<crate::flow::ActionView>,
    song: RecognitionView,
    query: Seq<char>,
) -> crate::flow::StepView {
    crate::flow::StepView { actions, next: crate::flow::PendingView::Done }.act(
        crate::flow::sent("Searching on Deezer..."@),
    ).wait(
        crate::flow::PendingView::Search {
            query,
            kind: SearchKind::Track,
            after: crate::flow::AfterSearchView::Recognized { song, query },
        },
    )
}

/// The step once a song was recognised. Its Deezer link is offered for
/// download; without one, what its Spotify link stands for is searched for, or
/// else its names.
pub open spec fn recognized_step(result: Result<RecognitionView, Seq<char>>) -> crate::flow::StepView {
    match result {
        Ok(song) => {
            let text = "🎵 Recognized track: "@ + song_name(song);
            match song.deezer_url {
                Some(url) => crate::flow::idle().act(
                    crate::flow::edited_with(
                        text,
                        seq![
                            seq![
                                crate::flow::ButtonView::Callback {
                                    label: "⬇️ Download"@,
                                    data: "dl:"@ + url,
                                },
                            ],
                            crate::flow::cancel_row(),
                        ],
                    ),
                ),
                None => {
                    let shown = crate::flow::idle().act(crate::flow::edited(text));
                    match song.spotify_url {
                        Some(url) => shown.wait(
                            crate::flow::PendingView::Spotify {
                                url,
                                after: crate::flow::AfterSpotifyView::Recognized { song },
                            },
                        ),
                        None => song_search_step(shown.actions, song, song_query_of(song)),
                    }
                },
            }
        },
        Err(e) => crate::flow::idle().act(crate::flow::edited("❌ Recognition failed: "@ + e)),
    }
}

fn search_song(step: Step, song: RecognitionResult, query: String) -> (r: Step)
    ensures
        r.deep_view() == song_search_step(step.deep_view().actions, song.deep_view(), query@),
{
    step.act(send("Searching on Deezer...")).wait(
        Pending::Search {
            query: query.clone(),
            kind: SearchKind::Track,
            after: AfterSearch::Recognized { song, query },
        },
    )
}

/// Offers a recognised song, or searches for it.
pub fn process_voice_recognize(result: Result<RecognitionResult, String>) -> (r: Step)
    ensures
        r.deep_view() == recognized_step(crate::flow::result_view(result)),
{
    match result {
        Ok(song) => {
            let text = "🎵 Recognized track: ".to_owned().concat(song.title.as_str()).concat(
                " — ",
            ).concat(song.artist.as_str());
            proof {
                let v = song.deep_view();
                assert(text@ =~= "🎵 Recognized track: "@ + song_name(v));
            }
            match &song.deezer_url {
                Some(url) => {
                    let data = "dl:".to_owned().concat(url.as_str());
                    let mut buttons: Vec<Vec<Button>> = Vec::new();
                    buttons.push(row(callback("⬇️ Download", data.as_str())));
                    buttons.push(cancel_button());
                    assert(buttons.deep_view() =~= seq![
                        seq![
                            crate::flow::ButtonView::Callback {
                                label: "⬇️ Download"@,
                                data: data@,
                            },
                        ],
                        crate::flow::cancel_row(),
                    ]);
                    Step::new().act(edit_with(text.as_str(), buttons))
                },
                None => {
                    let shown = Step::new().act(edit(text.as_str()));
                    let page = song.spotify_url.clone();
                    match page {
                        Some(url) => shown.wait(
                            Pending::Spotify { url, after: AfterSpotify::Recognized { song } },
                        ),
                        None => {
                            let query = song_query(&song);
                            search_song(shown, song, query)
                        },
                    }
                },
            }
        },
        Err(e) => Step::new().act(
            edit("❌ Recognition failed: ".to_owned().concat(e.as_str()).as_str()),
        ),
    }
}

/// Searches for what Spotify calls a song, or for the names it was recognised
/// by.
pub fn song_resolved(song: RecognitionResult, meta: Option<SpotifyMeta>) -> (r: Step)
    ensures
        r.deep_view() == song_search_step(
            Seq::empty(),
            song.deep_view(),
            match meta.deep_view() {
                Some(m) => m.query,
                None => song_query_of(song.deep_view()),
            },
        ),
{
    let query = match meta {
        Some(m) => m.query,
        None => song_query(&song),
    };
    search_song(Step::new(), song, query)
}

/// The text of a URL in its normal form; `None` where `text` is no URL.
pub uninterp spec fn normal_url(text: Seq<char>) -> Option<Seq<char>>;

/// Calls `reqwest::Url::parse` and writes the URL out again. The contract names
/// the result.
#[verifier::external_body]
fn parse_url(text: &str) -> (r: Option<String>)
    ensures
        r.deep_view() == normal_url(text@),
{
    reqwest::Url::parse(text).ok().map(|url| url.to_string())
}

/// The page on which Deezer searches for a query.
pub open spec fn search_page(query: Seq<char>) -> Seq<char> {
    "https://www.deezer.com/search/"@ + crate::text::percent_encoded(
        vstd::utf8::encode_utf8(query),
    )
}

/// The step that shows the results for a song. `page` is where to search for
/// it by hand.
pub open spec fn song_shown(
    song: RecognitionView,
    page: Option<Seq<char>>,
    results: Seq<crate::json::JsonView>,
) -> crate::flow::StepView {
    if results.len() == 0 {
        match page {
            Some(url) => crate::flow::idle().act(
                crate::flow::edited_with(
                    "😕 No results for: "@ + song_name(song)
                        + "\n\nSearch on Deezer and paste the link back here."@,
                    seq![
                        seq![
                            crate::flow::ButtonView::Link {
                                label: "🔍 Search on Deezer"@,
                                url,
                            },
                        ],
                    ],
                ),
            ),
            None => crate::flow::idle().act(
                crate::flow::edited("😕 No results for: "@ + song_name(song)),
            ),
        }
    } else {
        let rows = crate::search::result_rows(results, "🎵"@);
        let rows = match page {
            Some(url) => rows.push(
                seq![
                    crate::flow::ButtonView::Link {
                        label: "🔍 None of these — search on Deezer"@,
                        url,
                    },
                ],
            ),
            None => rows,
        };
        crate::flow::idle().act(
            crate::flow::edited_with(
                "Results for "@ + song_name(song) + ":\n\n"@ + crate::search::listing_of(results)
                    + "\nIf none match, search on Deezer and paste the link back here."@,
                rows.push(crate::flow::cancel_row()),
            ),
        )
    }
}

/// Shows the results for a song.
pub fn show_song(song: &RecognitionResult, page: &Option<String>, results: &Vec<Json>) -> (r: Step)
    ensures
        r.deep_view() == song_shown(song.deep_view(), page.deep_view(), results.deep_view()),
{
    let name = song.title.clone().concat(" — ").concat(song.artist.as_str());
    assert(name@ =~= song_name(song.deep_view()));
    assert(results.deep_view().len() == results@.len());
    if results.len() == 0 {
        let text = "😕 No results for: ".to_owned().concat(name.as_str());
        match page {
            Some(url) => {
                let text = text.concat("\n\nSearch on Deezer and paste the link back here.");
                let mut buttons: Vec<Vec<Button>> = Vec::new();
                buttons.push(link_button("🔍 Search on Deezer", url.as_str()));
                assert(buttons.deep_view() =~= seq![
                    seq![
                        crate::flow::ButtonView::Link { label: "🔍 Search on Deezer"@, url: url@ },
                    ],
                ]);
                Step::new().act(edit_with(text.as_str(), buttons))
            },
            None => Step::new().act(edit(text.as_str())),
        }
    } else {
        let (listing, mut buttons) = build_search_results(results, "🎵");
        let ghost rows = buttons.deep_view();
        match page {
            Some(url) => {
                let link = link_button("🔍 None of these — search on Deezer", url.as_str());
                let ghost added = link.deep_view();
                buttons.push(link);
                assert(buttons.deep_view() =~= rows.push(added));
            },
            None => {},
        }
        let ghost linked = buttons.deep_view();
        buttons.push(cancel_button());
        assert(buttons.deep_view() =~= linked.push(crate::flow::cancel_row()));
        let text = "Results for ".to_owned().concat(name.as_str()).concat(":\n\n").concat(
            listing.as_str(),
        ).concat("\nIf none match, search on Deezer and paste the link back here.");
        Step::new().act(edit_with(text.as_str(), buttons))
    }
}

/// The step once a song was searched for. Where nothing was found, its title
/// alone is tried.
pub open spec fn song_searched_step(
    song: RecognitionView,
    query: Seq<char>,
    results: Result<Seq<crate::json::JsonView>, Seq<char>>,
) -> crate::flow::StepView {
    match results {
        Ok(found) => if found.len() == 0 {
            crate::flow::idle().wait(
                crate::flow::PendingView::Search {
                    query: song.title,
                    kind: SearchKind::Track,
                    after: crate::flow::AfterSearchView::RecognizedTitle { song, query },
                },
            )
        } else {
            song_shown(song, normal_url(search_page(query)), found)
        },
        Err(e) => crate::flow::idle().act(crate::flow::edited("❌ Search failed: "@ + e)),
    }
}

fn deezer_page(query: &str) -> (r: Option<String>)
    ensures
        r.deep_view() == normal_url(search_page(query@)),
{
    let address = "https://www.deezer.com/search/".to_owned().concat(
        percent_encode(query).as_str(),
    );
    parse_url(address.as_str())
}

pub fn song_searched(
    song: RecognitionResult,
    query: String,
    results: Result<Vec<Json>, String>,
) -> (r: Step)
    ensures
        r.deep_view() == song_searched_step(
            song.deep_view(),
            query@,
            crate::flow::result_view(results),
        ),
{
    match results {
        Ok(found) => {
            assert(found.deep_view().len() == found@.len());
            if found.len() == 0 {
                let title = song.title.clone();
                Step::new().wait(
                    Pending::Search {
                        query: title,
                        kind: SearchKind::Track,
                        after: AfterSearch::RecognizedTitle { song, query },
                    },
                )
            } else {
                show_song(&song, &deezer_page(query.as_str()), &found)
            }
        },
        Err(e) => Step::new().act(
            edit("❌ Search failed: ".to_owned().concat(e.as_str()).as_str()),
        ),
    }
}

/// Shows the results for the title of a song. A search that failed counts as
/// one without results.
pub fn title_searched(
    song: &RecognitionResult,
    query: &str,
    results: Result<Vec<Json>, String>,
) -> (r: Step)
    ensures
        r.deep_view() == song_shown(
            song.deep_view(),
            normal_url(search_page(query@)),
            match crate::flow::result_view(results) {
                Ok(found) => found,
                Err(_) => Seq::empty(),
            },
        ),
{
    let found: Vec<Json> = match results {
        Ok(found) => found,
        Err(_) => {
            let none: Vec<Json> = Vec::new();
            assert(none.deep_view() =~= Seq::<crate::json::JsonView>::empty());
            none
        },
    };
    show_song(song, &deezer_page(query), &found)
}

// ── What holds of several steps ──────────────────────────────────────────────

/// A choice under a voice note leads to that note's file, whatever notes have
/// arrived before.
pub proof fn a_choice_finds_its_voice_note(
    voices: Map<Seq<char>, Seq<char>>,
    message_id: i32,
    file_id: Seq<char>,
)
    ensures
        voice_tap_step(
            voices.insert(voice_key(message_id), file_id),
            "vt:"@ + voice_key(message_id),
        ).next == (crate::flow::PendingView::FetchVoice {
            file_id,
            task: VoiceTask::Transcribe,
            origin: VoiceOrigin::Button,
        }),
        voice_tap_step(
            voices.insert(voice_key(message_id), file_id),
            "vr:"@ + voice_key(message_id),
        ).next == (crate::flow::PendingView::FetchVoice {
            file_id,
            task: VoiceTask::Recognize,
            origin: VoiceOrigin::Button,
        }),
{
    reveal_strlit("vt:");
    reveal_strlit("vr:");
    let key = voice_key(message_id);
    assert(("vt:"@ + key).skip(3) == key);
    assert(("vr:"@ + key).skip(3) == key);
    assert(("vt:"@ + key).take(3) == "vt:"@);
    assert(("vr:"@ + key)[1] == 'r');
    assert(("vr:"@ + key).take(3)[1] == 'r');
}

/// A voice note that arrives later does not disturb the choices under an
/// earlier one.
pub proof fn voice_notes_do_not_mix(
    voices: Map<Seq<char>, Seq<char>>,
    earlier: i32,
    later: i32,
    file_id: Seq<char>,
    data: Seq<char>,
)
    requires
        earlier != later,
        data == "vt:"@ + voice_key(earlier) || data == "vr:"@ + voice_key(earlier),
    ensures
        voice_tap_step(voices.insert(voice_key(later), file_id), data) == voice_tap_step(
            voices,
            data,
        ),
{
    reveal_strlit("vt:");
    reveal_strlit("vr:");
    assert(data.skip(3) == voice_key(earlier));
    crate::text::written_i64_reads_back(earlier as i64);
    crate::text::written_i64_reads_back(later as i64);
}

/// The data of a voice button keeps to the 64 bytes that Telegram allows.
pub proof fn voice_data_fits(message_id: i32)
    ensures
        vstd::utf8::encode_utf8("vt:"@ + voice_key(message_id)).len() <= 64,
        vstd::utf8::encode_utf8("vr:"@ + voice_key(message_id)).len() <= 64,
{
    reveal_strlit("vt:");
    reveal_strlit("vr:");
    let n = message_id as int;
    let magnitude: nat = if n < 0 {
        (-n) as nat
    } else {
        n as nat
    };
    lemma_ten_digits(magnitude);
    crate::text::lemma_decimal_digits(magnitude);
    let key = voice_key(message_id);
    assert(forall|i: int| 0 <= i < key.len() ==> 0 <= (#[trigger] key[i]) as u32 <= 127);
    vstd::utf8::is_ascii_chars_encode_utf8("vt:"@ + key);
    vstd::utf8::is_ascii_chars_encode_utf8("vr:"@ + key);
}

proof fn lemma_ten_digits(n: nat)
    requires
        n < 10_000_000_000,
    ensures
        crate::text::decimal(n).len() <= 10,
{
    reveal_with_fuel(crate::text::decimal, 11);
}

// ── What holds of recognition ────────────────────────────────────────────────

/// The best candidate comes first, and it is the one that is recognised: its
/// title, its artists and its links.
pub proof fn the_best_candidate_is_recognised(
    data: crate::json::JsonView,
    songs: Seq<crate::json::JsonView>,
    title: Seq<char>,
)
    requires
        data.field("status"@).field("code"@).signed() == Some(0i64),
        data.field("metadata"@).field("music"@) == crate::json::JsonView::Array(songs),
        songs.len() > 0,
        songs[0].field("title"@) == crate::json::JsonView::Str(title),
        title.len() > 0,
    ensures
        song_in(data) matches Ok(song) && song.title == title && (songs[0].field(
            "artists"@,
        ) matches crate::json::JsonView::Array(artists) ==> song.artist == crate::text::joined(
            crate::json::names_of(artists),
            ", "@,
        )) && (songs[0].field("external_metadata"@).field("deezer"@).field("track"@).field(
            "id"@,
        ) matches crate::json::JsonView::Str(id) ==> song.deezer_url == Some(
            "https://www.deezer.com/track/"@ + id,
        )) && (!(songs[0].field("external_metadata"@).field("deezer"@).field("track"@).field(
            "id"@,
        ) is Str) ==> song.deezer_url is None) && (songs[0].field("external_metadata"@).field(
            "spotify"@,
        ).field("track"@).field("id"@) matches crate::json::JsonView::Str(id) ==> song.spotify_url
            == Some("https://open.spotify.com/track/"@ + id)) && (!(songs[0].field(
            "external_metadata"@,
        ).field("spotify"@).field("track"@).field("id"@) is Str) ==> song.spotify_url is None),
{
}

/// Further candidates make no difference.
pub proof fn later_candidates_do_not_count(
    data: crate::json::JsonView,
    more: crate::json::JsonView,
    songs: Seq<crate::json::JsonView>,
    others: Seq<crate::json::JsonView>,
)
    requires
        songs.len() > 0,
        data.field("status"@) == more.field("status"@),
        data.field("metadata"@).field("music"@) == crate::json::JsonView::Array(songs),
        more.field("metadata"@).field("music"@) == crate::json::JsonView::Array(songs + others),
    ensures
        song_in(more) == song_in(data),
{
    assert((songs + others)[0] == songs[0]);
}

/// The artists of a song are all named, in order.
pub proof fn all_artists_are_named(
    data: crate::json::JsonView,
    songs: Seq<crate::json::JsonView>,
    first: crate::json::JsonView,
    second: crate::json::JsonView,
    a: Seq<char>,
    b: Seq<char>,
)
    requires
        song_in(data) is Ok,
        data.field("metadata"@).field("music"@) == crate::json::JsonView::Array(songs),
        songs.len() > 0,
        first.field("name"@) == crate::json::JsonView::Str(a),
        second.field("name"@) == crate::json::JsonView::Str(b),
    ensures
        songs[0].field("artists"@) == crate::json::JsonView::Array(seq![first])
            ==> song_in(data)->Ok_0.artist == a,
        songs[0].field("artists"@) == crate::json::JsonView::Array(seq![first, second])
            ==> song_in(data)->Ok_0.artist == a + ", "@ + b,
{
    let x = seq![first];
    let y = seq![second];
    assert(seq![first, second] =~= x + y);
    crate::json::names_are_read_in_order(x, y, first);
    crate::json::names_are_read_in_order(x, y, second);
    crate::text::parts_are_joined_in_order(seq![a], seq![b], a, ", "@);
    crate::text::parts_are_joined_in_order(seq![a], seq![b], b, ", "@);
}

/// An answer is a song exactly where its code is zero and its first candidate
/// has a title. The code 1001 says that there is none.
pub proof fn a_song_needs_a_title(data: crate::json::JsonView)
    ensures
        song_in(data) is Ok <==> data.field("status"@).field("code"@).signed() == Some(0i64)
            && data.field("metadata"@).field("music"@).item(0).field("title"@).str_or(
            Seq::empty(),
        ).len() > 0,
        data.field("status"@).field("code"@).signed() == Some(1001i64) ==> song_in(data) == Err::<
            RecognitionView,
            _,
        >("Song not recognized. Try a longer clip."@),
        data.field("status"@).field("code"@).signed() matches Some(c) ==> c != 0 && c != 1001 ==> (
        data.field("status"@).field("msg"@) matches crate::json::JsonView::Str(msg) ==> song_in(
            data,
        ) == Err::<RecognitionView, _>(
            "ACRCloud API error ("@ + crate::text::signed_decimal(c as int) + "): "@ + msg,
        )),
{
    reveal_strlit("");
}

/// A recognised song with a Deezer link is offered for download by a button that
/// carries that link. Without one the Spotify link is asked about, and without
/// either the song is searched for by its names.
pub proof fn a_recognised_song_is_offered(song: RecognitionView)
    ensures
        song.deezer_url matches Some(url) ==> ({
            let step = recognized_step(Ok(song));
            &&& step.next == crate::flow::PendingView::Done
            &&& step.actions.len() == 1
            &&& step.actions[0] matches crate::flow::ActionView::Edit {
                text,
                markup: crate::flow::MarkupView::Inline(rows),
            } && rows.len() == 2 && rows[0].len() == 1 && rows[1] == crate::flow::cancel_row() && (
            rows[0][0] matches crate::flow::ButtonView::Callback { label, data } && data == "dl:"@
                + url) && text == "🎵 Recognized track: "@ + song.title + " — "@ + song.artist
        }),
        song.deezer_url is None ==> (song.spotify_url matches Some(url) ==> recognized_step(
            Ok(song),
        ).next == (crate::flow::PendingView::Spotify {
            url,
            after: crate::flow::AfterSpotifyView::Recognized { song },
        })),
        song.deezer_url is None && song.spotify_url is None ==> (recognized_step(
            Ok(song),
        ).next matches crate::flow::PendingView::Search { query, kind, after } && kind
            == SearchKind::Track && query == song_query_of(song)),
        forall|e: Seq<char>|
            (#[trigger] recognized_step(Err(e))).next == crate::flow::PendingView::Done,
{
    assert("🎵 Recognized track: "@ + song_name(song) =~= "🎵 Recognized track: "@ + song.title
        + " — "@ + song.artist);
}

/// A song is searched for by all the words of its title and then of its artists,
/// without the ampersands between them.
pub proof fn a_song_is_searched_for_by_its_words(song: RecognitionView)
    ensures
        crate::text::words(song_query_of(song)) == crate::text::words(
            crate::text::with_char(song.title, '&', ' '),
        ) + crate::text::words(crate::text::with_char(song.artist, '&', ' ')),
        crate::titles::is_evenly_spaced(song_query_of(song)),
        !song_query_of(song).contains('&'),
{
    reveal_strlit(" ");
    let a = crate::text::with_char(song.title, '&', ' ');
    let b = crate::text::with_char(song.artist, '&', ' ');
    let s = crate::text::with_char(song.title + " "@ + song.artist, '&', ' ');
    assert(s =~= a + seq![' '] + b);
    crate::text::white_space_parts_words(a, ' ', b);
    crate::titles::lemma_words_are_words(s);
    crate::titles::lemma_words_of_joined(crate::text::words(s));
    crate::titles::lemma_words_come_from(s);
    let list = crate::text::words(s);
    assert forall|i: int, j: int|
        0 <= i < list.len() && 0 <= j < list[i].len() implies #[trigger] list[i][j] != '&' by {
        assert(s.contains(list[i][j]));
    }
    crate::titles::lemma_joined_avoids(list, '&');
}

/// What Spotify calls a song is searched for where it is known, and else the
/// song's own names are.
pub proof fn the_search_for_a_song_keeps_the_song(
    actions: Seq<crate::flow::ActionView>,
    song: RecognitionView,
    query: Seq<char>,
)
    ensures
        song_search_step(actions, song, query).next == (crate::flow::PendingView::Search {
            query,
            kind: SearchKind::Track,
            after: crate::flow::AfterSearchView::Recognized { song, query },
        }),
        song_search_step(actions, song, query).actions.len() == actions.len() + 1,
        song_search_step(actions, song, query).actions.drop_last() == actions,
{
    assert(song_search_step(actions, song, query).actions.drop_last() =~= actions);
}

/// A song that is not found is searched for by its title alone; what is found is
/// shown, each result with its button, in order.
pub proof fn a_song_is_tried_by_its_title(
    song: RecognitionView,
    query: Seq<char>,
    found: Seq<crate::json::JsonView>,
    e: Seq<char>,
)
    ensures
        found.len() == 0 ==> song_searched_step(song, query, Ok(found)).next == (
        crate::flow::PendingView::Search {
            query: song.title,
            kind: SearchKind::Track,
            after: crate::flow::AfterSearchView::RecognizedTitle { song, query },
        }),
        found.len() > 0 ==> ({
            let step = song_searched_step(song, query, Ok(found));
            &&& step.next == crate::flow::PendingView::Done
            &&& step.actions.len() == 1
            &&& step.actions[0] matches crate::flow::ActionView::Edit {
                text,
                markup: crate::flow::MarkupView::Inline(rows),
            } && rows.len() > found.len() && rows.last() == crate::flow::cancel_row() && forall|
                i: int,
            |
                0 <= i < found.len() ==> #[trigger] rows[i] == crate::search::result_rows(
                    found,
                    "🎵"@,
                )[i]
        }),
        song_searched_step(song, query, Err(e)).next == crate::flow::PendingView::Done,
{
}

/// Where nothing at all is found, the song is named and a page to search on by
/// hand is linked, where there is one.
pub proof fn a_song_without_results_is_searched_by_hand(song: RecognitionView, page: Seq<char>)
    ensures
        ({
            let step = song_shown(song, Some(page), Seq::empty());
            &&& step.next == crate::flow::PendingView::Done
            &&& step.actions.len() == 1
            &&& step.actions[0] matches crate::flow::ActionView::Edit {
                text,
                markup: crate::flow::MarkupView::Inline(rows),
            } && rows.len() == 1 && rows[0].len() == 1 && (
            rows[0][0] matches crate::flow::ButtonView::Link { label, url } && url == page)
                && crate::text::occurs_in(text, song.title) && crate::text::occurs_in(
                text,
                song.artist,
            )
        }),
        song_shown(song, None, Seq::empty()).actions == seq![
            crate::flow::ActionView::Edit {
                text: "😕 No results for: "@ + song.title + " — "@ + song.artist,
                markup: crate::flow::MarkupView::Plain,
            },
        ],
{
    let head = "😕 No results for: "@;
    let tail = "\n\nSearch on Deezer and paste the link back here."@;
    let text = head + song_name(song) + tail;
    assert(text =~= head + song.title + (" — "@ + song.artist + tail));
    crate::text::parts_are_found_anywhere(head, song.title, " — "@ + song.artist + tail, text);
    assert(text =~= (head + song.title + " — "@) + song.artist + tail);
    crate::text::parts_are_found_anywhere(
        head + song.title + " — "@,
        song.artist,
        tail,
        text,
    );
    assert(head + song_name(song) =~= head + song.title + " — "@ + song.artist);
    assert(song_shown(song, None, Seq::empty()).actions =~= seq![
        crate::flow::ActionView::Edit {
            text: "😕 No results for: "@ + song.title + " — "@ + song.artist,
            markup: crate::flow::MarkupView::Plain,
        },
    ]);
}

// ── What holds of uploads and transcripts ────────────────────────────────────

/// A recording is sent to OpenAI where its key is set, with that key, and else
/// to the compatible server where its address is set; it is sent unchanged.
pub proof fn openai_is_preferred(audio: Seq<u8>, key: Seq<char>, address: Seq<char>)
    ensures
        key.len() > 0 ==> (transcription_view(audio, key, address) matches Ok(u) && u.url
            == "https://api.openai.com/v1/audio/transcriptions"@ && u.headers == seq![
            ("Authorization"@, "Bearer "@ + key),
        ] && u.audio == audio && u.part == "file"@),
        key.len() == 0 && address.len() > 0 ==> (transcription_view(
            audio,
            key,
            address,
        ) matches Ok(u) && u.url == address && u.headers.len() == 0 && u.audio == audio && u.part
            == "file"@),
        key.len() == 0 && address.len() == 0 ==> transcription_view(audio, key, address) is Err,
        transcription_view(audio, key, address) matches Ok(u) ==> u.fields == seq![
            ("model"@, "whisper-1"@),
            ("response_format"@, "text"@),
        ],
{
    if key.len() > 0 {
        let u = transcription_view(audio, key, address)->Ok_0;
        assert(u.headers =~= seq![("Authorization"@, "Bearer "@ + key)]);
        assert(u.fields =~= seq![("model"@, "whisper-1"@), ("response_format"@, "text"@)]);
    } else if address.len() > 0 {
        let u = transcription_view(audio, key, address)->Ok_0;
        assert(u.fields =~= seq![("model"@, "whisper-1"@), ("response_format"@, "text"@)]);
    }
}

/// A transcript is what the server has written, without the space around it;
/// without success there is none.
pub proof fn a_transcript_is_what_was_written(
    response: TextResponse,
    before: Seq<char>,
    said: Seq<char>,
    behind: Seq<char>,
)
    requires
        crate::text::is_all_white(before),
        crate::text::is_all_white(behind),
        crate::text::has_no_outer_space(said),
    ensures
        response.answer.success ==> (response.body matches Ok(text) ==> (text@ == before + said
            + behind ==> transcript(Ok(response)) == Ok::<_, Seq<char>>(said))),
        !response.answer.success ==> transcript(Ok(response)) == Err::<Seq<char>, _>(
            "Whisper API error: "@ + response.answer.status@,
        ),
{
    crate::text::trimming_takes_the_outer_space(before, said, behind);
}

/// What was said is searched for as it was transcribed; where nothing was, or
/// the transcription failed, nothing is searched for.
pub proof fn what_was_said_is_searched_for(text: Seq<char>, e: Seq<char>)
    ensures
        text.len() > 0 ==> transcribed_step(Ok(text)).next == (crate::flow::PendingView::Search {
            query: text,
            kind: SearchKind::Track,
            after: crate::flow::AfterSearchView::Heard { text },
        }),
        text.len() == 0 ==> transcribed_step(Ok(text)).next == crate::flow::PendingView::Done,
        transcribed_step(Err(e)).next == crate::flow::PendingView::Done,
{
}

/// A recording goes to the task that was chosen for it, unchanged.
pub proof fn a_recording_goes_to_its_task(origin: VoiceOrigin, audio: Vec<u8>)
    ensures
        fetched_step(VoiceTask::Transcribe, origin, Fetched::Audio(audio)).next == (
        crate::flow::PendingView::Transcribe { audio: audio@ }),
        fetched_step(VoiceTask::Recognize, origin, Fetched::Audio(audio)).next == (
        crate::flow::PendingView::Recognize { audio: audio@ }),
{
}

/// A recording is sent for recognition, whole, exactly where recognition is
/// configured, the recording has less than five mebibytes and the time is known.
pub proof fn a_recording_is_recognised_where_it_can_be(
    audio: Seq<u8>,
    cfg: crate::config::ConfigView,
    clock: Result<u64, Seq<char>>,
)
    ensures
        recognition_view(audio, cfg, clock) is Ok <==> cfg.acrcloud_access_key.len() > 0
            && cfg.acrcloud_secret_key.len() > 0 && cfg.acrcloud_host.len() > 0 && audio.len()
            < 5242880 && clock is Ok,
        recognition_view(audio, cfg, clock) matches Ok(u) ==> u.audio == audio && u.url
            == "https://"@ + cfg.acrcloud_host + "/v1/identify"@ && u.part == "sample"@ && u.fields
            == seq![
            ("access_key"@, cfg.acrcloud_access_key),
            ("sample_bytes"@, crate::text::decimal(audio.len())),
            ("timestamp"@, crate::text::decimal(clock->Ok_0 as nat)),
            (
                "signature"@,
                base64_of(
                    hmac_sha1_code(
                        vstd::utf8::encode_utf8(cfg.acrcloud_secret_key),
                        vstd::utf8::encode_utf8(
                            "POST\n/v1/identify\n"@ + cfg.acrcloud_access_key + "\naudio\n1\n"@
                                + crate::text::decimal(clock->Ok_0 as nat),
                        ),
                    ),
                ),
            ),
            ("data_type"@, "audio"@),
            ("signature_version"@, "1"@),
        ],
{
    if recognition_view(audio, cfg, clock) is Ok {
        let u = recognition_view(audio, cfg, clock)->Ok_0;
        assert(u.fields =~= seq![
            ("access_key"@, cfg.acrcloud_access_key),
            ("sample_bytes"@, crate::text::decimal(audio.len())),
            ("timestamp"@, crate::text::decimal(clock->Ok_0 as nat)),
            (
                "signature"@,
                base64_of(
                    hmac_sha1_code(
                        vstd::utf8::encode_utf8(cfg.acrcloud_secret_key),
                        vstd::utf8::encode_utf8(
                            "POST\n/v1/identify\n"@ + cfg.acrcloud_access_key + "\naudio\n1\n"@
                                + crate::text::decimal(clock->Ok_0 as nat),
                        ),
                    ),
                ),
            ),
            ("data_type"@, "audio"@),
            ("signature_version"@, "1"@),
        ]);
    }
}

// ── What holds of the choices under a voice note ─────────────────────────────

/// A voice note is offered for what is configured and switched on, and for
/// nothing else; where nothing is, no note is kept.
pub proof fn a_voice_note_is_offered_what_is_on(
    voices: Map<Seq<char>, Seq<char>>,
    s: crate::users::UserSettings,
    config: crate::config::ConfigView,
    message_id: i32,
    file_id: Seq<char>,
)
    ensures
        ({
            let speech = (config.openai_api_key.len() > 0 || config.whisper_url.len() > 0)
                && s.voice_search;
            let song = config.acrcloud_access_key.len() > 0 && config.acrcloud_secret_key.len() > 0
                && s.song_recognition;
            let key = crate::text::signed_decimal(message_id as int);
            let step = voice_note_step(s, config, message_id);
            &&& step.next == crate::flow::PendingView::Done
            &&& step.actions.len() == 2
            &&& step.actions[0] is ExitDialogue
            &&& !speech && !song ==> (step.actions[1] matches crate::flow::ActionView::Send {
                text,
                markup: crate::flow::MarkupView::Plain,
            }) && voices_after(voices, s, config, message_id, file_id) == voices
            &&& speech || song ==> voices_after(voices, s, config, message_id, file_id)
                == voices.insert(key, file_id)
            &&& speech && song ==> (step.actions[1] matches crate::flow::ActionView::Send {
                text,
                markup: crate::flow::MarkupView::Inline(rows),
            } && rows.len() == 3 && carries(rows[0], "vt:"@ + key) && carries(
                rows[1],
                "vr:"@ + key,
            ) && carries(rows[2], "cancel"@))
            &&& speech && !song ==> (step.actions[1] matches crate::flow::ActionView::Send {
                text,
                markup: crate::flow::MarkupView::Inline(rows),
            } && rows.len() == 2 && carries(rows[0], "vt:"@ + key) && carries(rows[1], "cancel"@))
            &&& song && !speech ==> (step.actions[1] matches crate::flow::ActionView::Send {
                text,
                markup: crate::flow::MarkupView::Inline(rows),
            } && rows.len() == 2 && carries(rows[0], "vr:"@ + key) && carries(rows[1], "cancel"@))
        }),
{
}

/// A row is one button that sends `data` back.
pub open spec fn carries(row: Seq<crate::flow::ButtonView>, data: Seq<char>) -> bool {
    row.len() == 1 && (row[0] matches crate::flow::ButtonView::Callback { label, data: carried }
        && carried == data)
}

/// A voice note that the dialogue has asked for is fetched for the task that it
/// was asked for; a message without one ends the dialogue.
pub proof fn an_awaited_note_is_fetched(task: VoiceTask, file_id: Seq<char>)
    ensures
        awaited_step(task, Some(file_id)).next == (crate::flow::PendingView::FetchVoice {
            file_id,
            task,
            origin: VoiceOrigin::Dialogue,
        }),
        awaited_step(task, None).next == crate::flow::PendingView::Done,
        awaited_step(task, Some(file_id)).actions[0] is ExitDialogue,
        awaited_step(task, None).actions[0] is ExitDialogue,
{
}

/// A tap under a voice note that is no longer there starts nothing.
pub proof fn an_expired_note_starts_nothing(
    voices: Map<Seq<char>, Seq<char>>,
    data: Seq<char>,
)
    requires
        is_voice_data(data),
        !voices.contains_key(data.skip(3)),
    ensures
        voice_tap_step(voices, data).next == crate::flow::PendingView::Done,
        voice_tap_step(voices, data).actions == seq![
            crate::flow::ActionView::Edit {
                text: "❌ Voice note expired. Please send it again."@,
                markup: crate::flow::MarkupView::Plain,
            },
        ],
{
    assert(voice_tap_step(voices, data).actions =~= seq![
        crate::flow::ActionView::Edit {
            text: "❌ Voice note expired. Please send it again."@,
            markup: crate::flow::MarkupView::Plain,
        },
    ]);
}

// ── What is said about voice notes ───────────────────────────────────────────

/// What is said of a voice note names what was heard and what went wrong.
pub proof fn voice_notes_are_answered(
    text: Seq<char>,
    task: VoiceTask,
    origin: VoiceOrigin,
    song: RecognitionView,
    query: Seq<char>,
    error: String,
    e: Seq<char>,
)
    ensures
        transcribed_step(Err(e)).actions == seq![
            crate::flow::ActionView::Edit { text: "❌ Transcription failed: "@ + e, markup: crate::flow::MarkupView::Plain },
        ],
        transcribed_step(Ok(Seq::empty())).actions == seq![
            crate::flow::ActionView::Edit { text: "😕 Could not transcribe anything. Try speaking more clearly."@, markup: crate::flow::MarkupView::Plain },
        ],
        recognized_step(Err(e)).actions == seq![
            crate::flow::ActionView::Edit { text: "❌ Recognition failed: "@ + e, markup: crate::flow::MarkupView::Plain },
        ],
        fetched_step(task, origin, Fetched::NotDownloaded(error)).actions == seq![
            crate::flow::ActionView::Edit { text: "❌ Failed to download audio: "@ + error@, markup: crate::flow::MarkupView::Plain },
        ],
        fetched_step(task, VoiceOrigin::Button, Fetched::NotRead(error)).actions == seq![
            crate::flow::ActionView::Edit { text: "❌ Failed to read audio: "@ + error@, markup: crate::flow::MarkupView::Plain },
        ],
        song_searched_step(song, query, Err(e)).actions == seq![
            crate::flow::ActionView::Edit { text: "❌ Search failed: "@ + e, markup: crate::flow::MarkupView::Plain },
        ],
        text.len() > 0 ==> transcribed_step(Ok(text)).actions == seq![
            crate::flow::ActionView::Edit {
                text: "🔍 I heard: "@ + text + "\nSearching..."@,
                markup: crate::flow::MarkupView::Plain,
            },
            crate::flow::ActionView::Send {
                text: "Results for: "@ + text,
                markup: crate::flow::MarkupView::Plain,
            },
        ],
        fetched_step(task, VoiceOrigin::Dialogue, Fetched::NotRead(error)).next == (
        crate::flow::PendingView::Fail { error: error@ }),
{
    assert(transcribed_step(Err(e)).actions =~= seq![
            crate::flow::ActionView::Edit { text: "❌ Transcription failed: "@ + e, markup: crate::flow::MarkupView::Plain },
        ]);
    assert(transcribed_step(Ok(Seq::empty())).actions =~= seq![
            crate::flow::ActionView::Edit { text: "😕 Could not transcribe anything. Try speaking more clearly."@, markup: crate::flow::MarkupView::Plain },
        ]);
    assert(recognized_step(Err(e)).actions =~= seq![
            crate::flow::ActionView::Edit { text: "❌ Recognition failed: "@ + e, markup: crate::flow::MarkupView::Plain },
        ]);
    assert(fetched_step(task, origin, Fetched::NotDownloaded(error)).actions =~= seq![
            crate::flow::ActionView::Edit { text: "❌ Failed to download audio: "@ + error@, markup: crate::flow::MarkupView::Plain },
        ]);
    assert(fetched_step(task, VoiceOrigin::Button, Fetched::NotRead(error)).actions =~= seq![
            crate::flow::ActionView::Edit { text: "❌ Failed to read audio: "@ + error@, markup: crate::flow::MarkupView::Plain },
        ]);
    assert(song_searched_step(song, query, Err(e)).actions =~= seq![
            crate::flow::ActionView::Edit { text: "❌ Search failed: "@ + e, markup: crate::flow::MarkupView::Plain },
        ]);
    if text.len() > 0 {
        assert(transcribed_step(Ok(text)).actions =~= seq![
            crate::flow::ActionView::Edit {
                text: "🔍 I heard: "@ + text + "\nSearching..."@,
                markup: crate::flow::MarkupView::Plain,
            },
            crate::flow::ActionView::Send {
                text: "Results for: "@ + text,
                markup: crate::flow::MarkupView::Plain,
            },
        ]);
    }
}

/// The results for a song stand under its name, in full, with a link to search by
/// hand behind their buttons where there is one.
pub proof fn results_for_a_song_are_listed(
    song: RecognitionView,
    page: Option<Seq<char>>,
    results: Seq<crate::json::JsonView>,
)
    requires
        results.len() > 0,
    ensures
        song_shown(song, page, results).next == crate::flow::PendingView::Done,
        song_shown(song, page, results).actions.len() == 1,
        song_shown(song, page, results).actions[0] matches crate::flow::ActionView::Edit {
            text,
            markup: crate::flow::MarkupView::Inline(rows),
        } && crate::text::has_prefix(
            text,
            "Results for "@ + song.title + " — "@ + song.artist + ":\n\n"@
                + crate::search::listing_of(results),
        ) && rows.len() == results.len() + (if page is Some {
            2int
        } else {
            1
        }) && rows.last() == crate::flow::cancel_row() && (page matches Some(at) ==> rows[
        results.len() as int].len() == 1 && (
        rows[results.len() as int][0] matches crate::flow::ButtonView::Link { label, url } && url
            == at)),
{
    let head = "Results for "@ + song.title + " — "@ + song.artist + ":\n\n"@
        + crate::search::listing_of(results);
    let text = "Results for "@ + song_name(song) + ":\n\n"@ + crate::search::listing_of(results)
        + "\nIf none match, search on Deezer and paste the link back here."@;
    assert(text.subrange(0, head.len() as int) =~= head);
}

/// The page to search on by hand is Deezer's, and stands for the query.
pub proof fn the_page_to_search_on_is_for_the_query(query: Seq<char>)
    ensures
        crate::text::has_prefix(search_page(query), "https://www.deezer.com/search/"@),
        crate::text::percent_decoded(
            search_page(query).skip("https://www.deezer.com/search/"@.len() as int),
        ) == vstd::utf8::encode_utf8(query).map_values(|b: u8| b as int),
{
    let head = "https://www.deezer.com/search/"@;
    let bytes = vstd::utf8::encode_utf8(query);
    crate::text::percent_encoding_can_be_undone(bytes);
    assert(search_page(query).subrange(0, head.len() as int) =~= head);
    assert(search_page(query).skip(head.len() as int) =~= crate::text::percent_encoded(bytes));
}

/// What ACRCloud leaves out has a name of its own in what is said.
pub proof fn what_acrcloud_leaves_out(data: crate::json::JsonView)
    ensures
        data.field("status"@).field("code"@).signed() is None && !(data.field("status"@).field(
            "msg"@,
        ) is Str) ==> song_in(data) == Err::<RecognitionView, _>(
            "ACRCloud API error ("@ + crate::text::signed_decimal(-1) + "): "@ + "unknown"@,
        ),
        !(data.field("metadata"@).field("music"@).item(0).field("artists"@) is Array) ==> (song_in(
            data,
        ) matches Ok(song) ==> song.artist.len() == 0),
        is_voice_data("vt:"@) && is_voice_data("vr:"@),
        forall|d: Seq<char>| #[trigger]
            is_voice_data(d) <==> d.len() >= 3 && d[0] == 'v' && (d[1] == 't' || d[1] == 'r')
                && d[2] == ':',
{
    reveal_strlit("vt:");
    reveal_strlit("vr:");
    assert forall|d: Seq<char>| #[trigger]
        is_voice_data(d) <==> d.len() >= 3 && d[0] == 'v' && (d[1] == 't' || d[1] == 'r') && d[2]
            == ':' by {
        if d.len() >= 3 {
            let head = d.subrange(0, 3);
            assert(head[0] == d[0] && head[1] == d[1] && head[2] == d[2]);
            if d[0] == 'v' && d[2] == ':' {
                if d[1] == 't' {
                    assert(head =~= "vt:"@);
                }
                if d[1] == 'r' {
                    assert(head =~= "vr:"@);
                }
            }
        }
    }
    assert("vt:"@[0] == 'v' && "vt:"@[1] == 't' && "vt:"@[2] == ':');
    assert("vr:"@[0] == 'v' && "vr:"@[1] == 'r' && "vr:"@[2] == ':');
}

} // verus!
