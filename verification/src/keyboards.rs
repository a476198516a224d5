//! Keyboards and bitrates.
//!
//! Keyboards reflect the user's settings and the configuration: main menu,
//! settings screen and the button that cancels the input of an ARL.

use vstd::prelude::*;

use crate::config::Config;
use crate::flow::{callback, row, Button, KeyboardMarkup};
use crate::users::UserSettings;

verus! {

/// The label of a deemix bitrate (9 = FLAC, 3 and 1 = MP3).
pub open spec fn label_of(bitrate: u8) -> Seq<char> {
    if bitrate == 9 {
        "FLAC (lossless)"@
    } else if bitrate == 3 {
        "MP3 320kbps"@
    } else if bitrate == 1 {
        "MP3 128kbps"@
    } else {
        "Unknown"@
    }
}

pub fn bitrate_label(bitrate: u8) -> (r: &'static str)
    ensures
        r@ == label_of(bitrate),
{
    match bitrate {
        9 => "FLAC (lossless)",
        3 => "MP3 320kbps",
        1 => "MP3 128kbps",
        _ => "Unknown",
    }
}

/// The bitrate after `current`: FLAC, MP3 320, MP3 128, and FLAC again.
pub open spec fn bitrate_after(current: u8) -> u8 {
    if current == 9 {
        3
    } else if current == 3 {
        1
    } else {
        9
    }
}

pub fn next_bitrate(current: u8) -> (r: u8)
    ensures
        r == bitrate_after(current),
{
    match current {
        9 => 3,
        3 => 1,
        _ => 9,
    }
}

/// A bitrate that deemix offers.
pub open spec fn is_supported(bitrate: u8) -> bool {
    bitrate == 9 || bitrate == 3 || bitrate == 1
}

/// Every step of the cycle lands on a supported bitrate, three steps from a
/// supported one lead back to it, and fewer do not.
pub proof fn bitrates_cycle(current: u8)
    ensures
        is_supported(bitrate_after(current)),
        is_supported(current) ==> bitrate_after(bitrate_after(bitrate_after(current))) == current,
        bitrate_after(current) != current,
        is_supported(current) ==> bitrate_after(bitrate_after(current)) != current,
{
}

pub open spec fn notification_key(s: UserSettings) -> Seq<char> {
    if s.restart_notifications {
        "🔔 Restart notifications: ON"@
    } else {
        "🔕 Restart notifications: OFF"@
    }
}

pub open spec fn voice_key(s: UserSettings, config: crate::config::ConfigView) -> Seq<char> {
    if s.voice_search && config.whisper_enabled() {
        "🎤 Voice search: ON"@
    } else {
        "🎤 Voice search: OFF"@
    }
}

pub open spec fn recognition_key(s: UserSettings, config: crate::config::ConfigView) -> Seq<char> {
    if s.song_recognition && config.audd_enabled() {
        "🎵 Song recognition: ON"@
    } else {
        "🎵 Song recognition: OFF"@
    }
}

pub open spec fn quality_key(config: crate::config::ConfigView, bitrate: u8) -> Seq<char> {
    if config.deemix_bitrate_lock {
        "🔒 Quality: "@ + label_of(bitrate) + " (locked)"@
    } else {
        "🎚️ Quality: "@ + label_of(bitrate) + " (tap to change)"@
    }
}

/// The settings screen.
pub open spec fn settings_keys(
    s: UserSettings,
    config: crate::config::ConfigView,
    bitrate: u8,
) -> crate::flow::KeyboardView {
    crate::flow::KeyboardView {
        rows: seq![
            seq![notification_key(s)],
            seq![voice_key(s, config)],
            seq![recognition_key(s, config)],
            seq![quality_key(config, bitrate)],
            seq!["🔑 Update ARL"@],
            seq!["🔙 Back to menu"@],
        ],
        resize: true,
    }
}

/// A row with one key.
fn key(text: String) -> (r: Vec<String>)
    ensures
        r.deep_view() == seq![text@],
{
    let mut v: Vec<String> = Vec::new();
    v.push(text);
    assert(v.deep_view() =~= seq![text@]);
    v
}

/// A row with two keys.
fn two_keys(a: &str, b: &str) -> (r: Vec<String>)
    ensures
        r.deep_view() == seq![a@, b@],
{
    let mut v: Vec<String> = Vec::new();
    v.push(a.to_owned());
    v.push(b.to_owned());
    assert(v.deep_view() =~= seq![a@, b@]);
    v
}

pub fn settings_keyboard(s: &UserSettings, config: &Config, bitrate: u8) -> (r: KeyboardMarkup)
    ensures
        r.deep_view() == settings_keys(*s, config.deep_view(), bitrate),
{
    let notif = if s.restart_notifications {
        "🔔 Restart notifications: ON"
    } else {
        "🔕 Restart notifications: OFF"
    };
    let voice = if s.voice_search && config.whisper_enabled() {
        "🎤 Voice search: ON"
    } else {
        "🎤 Voice search: OFF"
    };
    let recog = if s.song_recognition && config.audd_enabled() {
        "🎵 Song recognition: ON"
    } else {
        "🎵 Song recognition: OFF"
    };
    let quality = if config.deemix_bitrate_lock {
        "🔒 Quality: ".to_owned().concat(bitrate_label(bitrate)).concat(" (locked)")
    } else {
        "🎚️ Quality: ".to_owned().concat(bitrate_label(bitrate)).concat(" (tap to change)")
    };
    let mut rows: Vec<Vec<String>> = Vec::new();
    rows.push(key(notif.to_owned()));
    rows.push(key(voice.to_owned()));
    rows.push(key(recog.to_owned()));
    rows.push(key(quality));
    rows.push(key("🔑 Update ARL".to_owned()));
    rows.push(key("🔙 Back to menu".to_owned()));
    let r = KeyboardMarkup { rows, resize: true };
    assert(r.deep_view() =~= settings_keys(*s, config.deep_view(), bitrate));
    r
}

/// The button that cancels the input of an ARL.
pub open spec fn arl_cancel_rows() -> Seq<Seq<crate::flow::ButtonView>> {
    seq![
        seq![crate::flow::ButtonView::Callback { label: "❌ Cancel"@, data: "cancel_arl"@ }],
    ]
}

pub fn arl_cancel_keyboard() -> (r: Vec<Vec<Button>>)
    ensures
        r.deep_view() == arl_cancel_rows(),
{
    let mut rows: Vec<Vec<Button>> = Vec::new();
    rows.push(row(callback("❌ Cancel", "cancel_arl")));
    assert(rows.deep_view() =~= arl_cancel_rows());
    rows
}

/// The voice keys of the main menu: those whose feature is configured and
/// switched on.
pub open spec fn voice_keys(s: UserSettings, config: crate::config::ConfigView) -> Seq<Seq<char>> {
    let search = if config.whisper_enabled() && s.voice_search {
        seq!["🎤 Voice search"@]
    } else {
        Seq::<Seq<char>>::empty()
    };
    let recognition = if config.audd_enabled() && s.song_recognition {
        seq!["🎵 Recognize song"@]
    } else {
        Seq::<Seq<char>>::empty()
    };
    search + recognition
}

/// The main menu. A row without a voice key is left out.
pub open spec fn main_keys(
    s: UserSettings,
    config: crate::config::ConfigView,
) -> crate::flow::KeyboardView {
    let top = seq![
        seq!["🔍 Search a track"@, "💿 Search an album"@],
        seq!["🔗 From streaming link"@, "🎵 From Deezer URL"@],
    ];
    let voice = if voice_keys(s, config).len() > 0 {
        seq![voice_keys(s, config)]
    } else {
        Seq::<Seq<Seq<char>>>::empty()
    };
    let bottom = seq![
        seq!["📊 Check status"@, "🧹 Clear queue"@],
        seq!["⚙️ Settings"@, "ℹ️ Help"@],
    ];
    crate::flow::KeyboardView { rows: top + voice + bottom, resize: true }
}

pub fn main_keyboard(s: &UserSettings, config: &Config) -> (r: KeyboardMarkup)
    ensures
        r.deep_view() == main_keys(*s, config.deep_view()),
{
    let mut rows: Vec<Vec<String>> = Vec::new();
    rows.push(two_keys("🔍 Search a track", "💿 Search an album"));
    rows.push(two_keys("🔗 From streaming link", "🎵 From Deezer URL"));
    let show_voice = config.whisper_enabled() && s.voice_search;
    let show_recog = config.audd_enabled() && s.song_recognition;
    if show_voice || show_recog {
        let mut voice_row: Vec<String> = Vec::new();
        if show_voice {
            voice_row.push("🎤 Voice search".to_owned());
        }
        if show_recog {
            voice_row.push("🎵 Recognize song".to_owned());
        }
        assert(voice_row.deep_view() =~= voice_keys(*s, config.deep_view()));
        rows.push(voice_row);
    }
    rows.push(two_keys("📊 Check status", "🧹 Clear queue"));
    rows.push(two_keys("⚙️ Settings", "ℹ️ Help"));
    let r = KeyboardMarkup { rows, resize: true };
    assert(r.deep_view() =~= main_keys(*s, config.deep_view()));
    r
}

// ── What holds of qualities and keys ─────────────────────────────────────────

/// A change of quality goes one step down, and from the lowest quality back to
/// the highest; each is shown by its name.
pub proof fn qualities_go_down()
    ensures
        bitrate_after(9) == 3,
        bitrate_after(3) == 1,
        bitrate_after(1) == 9,
        forall|b: u8| b != 9 && b != 3 ==> #[trigger] bitrate_after(b) == 9,
        label_of(9) == "FLAC (lossless)"@,
        label_of(3) == "MP3 320kbps"@,
        label_of(1) == "MP3 128kbps"@,
        forall|b: u8| b != 9 && b != 3 && b != 1 ==> #[trigger] label_of(b) == "Unknown"@,
{
}

/// The settings screen shows each setting as it is: a feature is on where it is
/// switched on and configured.
pub proof fn settings_are_shown_as_they_are(
    s: UserSettings,
    config: crate::config::ConfigView,
    bitrate: u8,
)
    ensures
        ({
            let rows = settings_keys(s, config, bitrate).rows;
            &&& rows.len() == 6
            &&& forall|i: int| 0 <= i < 6 ==> (#[trigger] rows[i]).len() == 1
            &&& rows[0][0] == (if s.restart_notifications {
                "🔔 Restart notifications: ON"@
            } else {
                "🔕 Restart notifications: OFF"@
            })
            &&& rows[1][0] == (if s.voice_search && (config.openai_api_key.len() > 0
                || config.whisper_url.len() > 0) {
                "🎤 Voice search: ON"@
            } else {
                "🎤 Voice search: OFF"@
            })
            &&& rows[2][0] == (if s.song_recognition && config.audd_api_key.len() > 0 {
                "🎵 Song recognition: ON"@
            } else {
                "🎵 Song recognition: OFF"@
            })
            &&& crate::text::occurs_in(rows[3][0], label_of(bitrate))
            &&& crate::text::has_suffix(rows[3][0], " (locked)"@) <==> config.deemix_bitrate_lock
            &&& rows[4][0] == "🔑 Update ARL"@
            &&& rows[5][0] == "🔙 Back to menu"@
        }),
{
    reveal_strlit(" (locked)");
    reveal_strlit(" (tap to change)");
    let label = label_of(bitrate);
    let locked = "🔒 Quality: "@ + label + " (locked)"@;
    let open = "🎚️ Quality: "@ + label + " (tap to change)"@;
    crate::text::parts_are_found_anywhere("🔒 Quality: "@, label, " (locked)"@, locked);
    crate::text::parts_are_found_anywhere("🎚️ Quality: "@, label, " (tap to change)"@, open);
    crate::text::ends_are_found("🔒 Quality: "@ + label, " (locked)"@);
    if crate::text::has_suffix(open, " (locked)"@) {
        let n = " (locked)"@.len() as int;
        assert(open.subrange(open.len() - n, open.len() as int)[n - 2] == 'd');
        assert(open[open.len() - 2] == 'e');
    }
}

/// The main menu has a key for each thing to do, and those for voice notes only
/// where they work.
pub proof fn the_menu_has_its_keys(s: UserSettings, config: crate::config::ConfigView)
    ensures
        ({
            let rows = main_keys(s, config).rows;
            let speech = (config.openai_api_key.len() > 0 || config.whisper_url.len() > 0)
                && s.voice_search;
            let song = config.audd_api_key.len() > 0 && s.song_recognition;
            let last = rows.len() - 1;
            &&& rows.len() == (if speech || song {
                5int
            } else {
                4
            })
            &&& rows[0] == seq!["🔍 Search a track"@, "💿 Search an album"@]
            &&& rows[1] == seq!["🔗 From streaming link"@, "🎵 From Deezer URL"@]
            &&& speech && song ==> rows[2] == seq!["🎤 Voice search"@, "🎵 Recognize song"@]
            &&& speech && !song ==> rows[2] == seq!["🎤 Voice search"@]
            &&& song && !speech ==> rows[2] == seq!["🎵 Recognize song"@]
            &&& rows[last - 1] == seq!["📊 Check status"@, "🧹 Clear queue"@]
            &&& rows[last] == seq!["⚙️ Settings"@, "ℹ️ Help"@]
        }),
{
    let speech = (config.openai_api_key.len() > 0 || config.whisper_url.len() > 0)
        && s.voice_search;
    let song = config.audd_api_key.len() > 0 && s.song_recognition;
    let rows = main_keys(s, config).rows;
    if speech || song {
        assert(rows[2] == voice_keys(s, config));
        if speech && song {
            assert(rows[2] =~= seq!["🎤 Voice search"@, "🎵 Recognize song"@]);
        } else if speech {
            assert(rows[2] =~= seq!["🎤 Voice search"@]);
        } else {
            assert(rows[2] =~= seq!["🎵 Recognize song"@]);
        }
    }
}

} // verus!
