//! Per-user preferences.

use vstd::prelude::*;

use crate::table::Table;
use crate::text::{i64_text, parse_i64};

verus! {

/// What a user has switched on.
#[derive(Clone, Copy, Debug, PartialEq, Eq, Structural)]
pub struct UserSettings {
    pub restart_notifications: bool,
    pub voice_search: bool,
    pub song_recognition: bool,
}

impl DeepView for UserSettings {
    type V = UserSettings;

    open spec fn deep_view(&self) -> UserSettings {
        *self
    }
}

/// The settings of a user who has not chosen any.
pub open spec fn default_settings() -> UserSettings {
    UserSettings { restart_notifications: false, voice_search: true, song_recognition: true }
}

/// The value of a voice preference that is not stored.
pub fn default_true() -> (r: bool)
    ensures
        r,
{
    true
}

impl Default for UserSettings {
    fn default() -> (r: Self)
        ensures
            r == default_settings(),
    {
        UserSettings {
            restart_notifications: false,  // off by default
            voice_search: default_true(),
            song_recognition: default_true(),
        }
    }
}

/// The settings of each known user, under the user's id in decimal.
pub type UsersDb = Table<UserSettings>;

/// The key of a user.
pub open spec fn user_key(user_id: i64) -> Seq<char> {
    crate::text::signed_decimal(user_id as int)
}

/// The settings of a user, or the defaults where there are none.
pub open spec fn settings_of(db: Map<Seq<char>, UserSettings>, user_id: i64) -> UserSettings {
    if db.contains_key(user_key(user_id)) {
        db[user_key(user_id)]
    } else {
        default_settings()
    }
}

/// The settings of a user, who is entered with the defaults on first sight.
pub fn get_or_create(db: &mut UsersDb, user_id: i64) -> (r: UserSettings)
    ensures
        r == settings_of(old(db)@, user_id),
        final(db)@ == old(db)@.insert(user_key(user_id), r),
{
    let key = i64_text(user_id);
    let known = match db.get(key.as_str()) {
        Some(settings) => Some(*settings),
        None => None,
    };
    match known {
        Some(settings) => {
            assert(db@.insert(user_key(user_id), settings) =~= db@);
            settings
        },
        None => {
            let settings = UserSettings::default();
            db.insert(key, settings);
            settings
        },
    }
}

/// Lets `f` change the settings of a user, which start from the defaults.
pub fn update<F>(db: &mut UsersDb, user_id: i64, f: F) where F: FnOnce(&mut UserSettings)
    requires
        forall|s: &mut UserSettings|
            *s == settings_of(old(db)@, user_id) ==> #[trigger] f.requires((s,)),
    ensures
        exists|s: &mut UserSettings|
            *s == settings_of(old(db)@, user_id) && #[trigger] f.ensures((s,), ())
                && final(db)@ == old(db)@.insert(user_key(user_id), *final(s)),
{
    let key = i64_text(user_id);
    let mut settings = match db.get(key.as_str()) {
        Some(settings) => *settings,
        None => UserSettings::default(),
    };
    f(&mut settings);
    db.insert(key, settings);
}

/// Some user of `db` with restart notifications has the id `id`.
pub open spec fn wants_notification(db: Map<Seq<char>, UserSettings>, id: i64) -> bool {
    exists|k: Seq<char>| #[trigger]
        db.contains_key(k) && db[k].restart_notifications && crate::text::parsed_i64(k) == Some(id)
}

/// The ids of the entries of `list` with restart notifications, in order.
pub open spec fn notified(list: Seq<(String, UserSettings)>) -> Seq<i64>
    decreases list.len(),
{
    if list.len() == 0 {
        Seq::empty()
    } else {
        let rest = notified(list.drop_last());
        match crate::text::parsed_i64(list.last().0@) {
            Some(id) => if list.last().1.restart_notifications {
                rest.push(id)
            } else {
                rest
            },
            None => rest,
        }
    }
}

proof fn lemma_notified(list: Seq<(String, UserSettings)>, id: i64)
    ensures
        notified(list).contains(id) <==> exists|i: int|
            0 <= i < list.len() && (#[trigger] list[i]).1.restart_notifications
                && crate::text::parsed_i64(list[i].0@) == Some(id),
    decreases list.len(),
{
    if list.len() > 0 {
        let short = list.drop_last();
        lemma_notified(short, id);
        let rest = notified(short);
        assert(forall|x: i64| rest.push(x).contains(id) <==> rest.contains(id) || x == id) by {
            assert forall|x: i64| rest.push(x).contains(id) <==> rest.contains(id) || x == id by {
                if rest.contains(id) {
                    let c = choose|c: int| 0 <= c < rest.len() && rest[c] == id;
                    assert(rest.push(x)[c] == id);
                }
                if x == id {
                    assert(rest.push(x)[rest.len() as int] == id);
                }
            }
        }
        if notified(list).contains(id) {
            if rest.contains(id) {
                let i = choose|i: int|
                    0 <= i < short.len() && (#[trigger] short[i]).1.restart_notifications
                        && crate::text::parsed_i64(short[i].0@) == Some(id);
                assert(list[i] == short[i]);
            } else {
                assert(list[list.len() - 1] == list.last());
            }
        }
        if exists|i: int|
            0 <= i < list.len() && (#[trigger] list[i]).1.restart_notifications
                && crate::text::parsed_i64(list[i].0@) == Some(id) {
            let i = choose|i: int|
                0 <= i < list.len() && (#[trigger] list[i]).1.restart_notifications
                    && crate::text::parsed_i64(list[i].0@) == Some(id);
            if i < short.len() {
                assert(short[i] == list[i]);
            }
        }
    }
}

/// A key as the bot writes it.
pub open spec fn is_user_key(k: Seq<char>) -> bool {
    exists|id: i64| k == #[trigger] user_key(id)
}

proof fn lemma_notified_once(list: Seq<(String, UserSettings)>)
    requires
        crate::table::keys_differ(list),
        forall|i: int| 0 <= i < list.len() ==> is_user_key((#[trigger] list[i]).0@),
    ensures
        notified(list).no_duplicates(),
    decreases list.len(),
{
    if list.len() > 0 {
        let short = list.drop_last();
        assert forall|i: int| 0 <= i < short.len() implies is_user_key(
            (#[trigger] short[i]).0@,
        ) by {
            assert(short[i] == list[i]);
        }
        lemma_notified_once(short);
        let key = list[list.len() - 1].0@;
        assert(is_user_key(key));
        let id = choose|id: i64| key == #[trigger] user_key(id);
        crate::text::written_i64_reads_back(id);
        lemma_notified(short, id);
        if notified(short).contains(id) {
            let i = choose|i: int|
                0 <= i < short.len() && (#[trigger] short[i]).1.restart_notifications
                    && crate::text::parsed_i64(short[i].0@) == Some(id);
            assert(list[i] == short[i]);
            assert(is_user_key(list[i].0@));
            let other = choose|other: i64| list[i].0@ == #[trigger] user_key(other);
            crate::text::written_i64_reads_back(other);
        }
    }
}

/// The ids of all users who want to hear of a restart. A key that is no number
/// names no user.
pub fn all_with_notifications(db: &UsersDb) -> (r: Vec<i64>)
    ensures
        r@ == notified(db.listing()),
        forall|id: i64| r@.contains(id) <==> wants_notification(db@, id),
        (forall|k: Seq<char>| #[trigger] db@.contains_key(k) ==> is_user_key(k))
            ==> r@.no_duplicates(),
{
    let entries = db.entries();
    let mut r: Vec<i64> = Vec::new();
    let mut i: usize = 0;
    while i < entries.len()
        invariant
            i <= entries@.len(),
            r@ == notified(entries@.take(i as int)),
        decreases entries@.len() - i,
    {
        proof {
            assert(entries@.take(i + 1).drop_last() == entries@.take(i as int));
            assert(entries@.take(i + 1).last() == entries@[i as int]);
        }
        if entries[i].1.restart_notifications {
            match parse_i64(entries[i].0.as_str()) {
                Some(id) => r.push(id),
                None => {},
            }
        }
        i += 1;
    }
    proof {
        let list = entries@;
        assert(list.take(i as int) == list);
        if forall|k: Seq<char>| #[trigger] db@.contains_key(k) ==> is_user_key(k) {
            assert forall|i: int| 0 <= i < list.len() implies is_user_key(
                (#[trigger] list[i]).0@,
            ) by {
                crate::table::lemma_map_of_entry(list, i);
                assert(db@.contains_key(list[i].0@));
            }
            lemma_notified_once(list);
        }
        assert forall|id: i64| r@.contains(id) <==> wants_notification(db@, id) by {
            lemma_notified(list, id);
            if r@.contains(id) {
                let i = choose|i: int|
                    0 <= i < list.len() && (#[trigger] list[i]).1.restart_notifications
                        && crate::text::parsed_i64(list[i].0@) == Some(id);
                crate::table::lemma_map_of_entry(list, i);
                assert(db@.contains_key(list[i].0@));
            }
            if wants_notification(db@, id) {
                let k = choose|k: Seq<char>| #[trigger]
                    db@.contains_key(k) && db@[k].restart_notifications
                        && crate::text::parsed_i64(k) == Some(id);
                let i = choose|i: int| 0 <= i < list.len() && (#[trigger] list[i]).0@ == k;
                crate::table::lemma_map_of_entry(list, i);
            }
        }
    }
    r
}

// ── What holds of several calls ──────────────────────────────────────────────

/// Two users never share an entry.
pub proof fn users_have_their_own_entries(a: i64, b: i64)
    ensures
        a != b ==> user_key(a) != user_key(b),
{
    crate::text::written_i64_reads_back(a);
    crate::text::written_i64_reads_back(b);
}

/// Looking a user up and entering what was found changes nothing that a later
/// look-up sees: the same settings come back, for this user and for any other.
pub proof fn looking_up_keeps_settings(db: Map<Seq<char>, UserSettings>, user: i64, other: i64)
    ensures
        settings_of(db.insert(user_key(user), settings_of(db, user)), other) == settings_of(
            db,
            other,
        ),
{
    users_have_their_own_entries(user, other);
}

/// A change of one user's settings is what that user has from then on, and
/// every other user keeps theirs.
pub proof fn a_change_is_the_users_own(
    db: Map<Seq<char>, UserSettings>,
    user: i64,
    new: UserSettings,
    other: i64,
)
    ensures
        settings_of(db.insert(user_key(user), new), user) == new,
        other != user ==> settings_of(db.insert(user_key(user), new), other) == settings_of(
            db,
            other,
        ),
{
    users_have_their_own_entries(user, other);
}

/// A user who has switched restart notifications on is among those notified.
pub proof fn subscribed_users_are_notified(
    db: Map<Seq<char>, UserSettings>,
    user: i64,
    new: UserSettings,
)
    requires
        new.restart_notifications,
    ensures
        wants_notification(db.insert(user_key(user), new), user),
{
    crate::text::written_i64_reads_back(user);
    assert(db.insert(user_key(user), new).contains_key(user_key(user)));
}

/// A user who has switched restart notifications off is not among those
/// notified, where every key is a user's id as the bot writes it.
pub proof fn unsubscribed_users_are_not_notified(
    db: Map<Seq<char>, UserSettings>,
    user: i64,
    new: UserSettings,
)
    requires
        !new.restart_notifications,
        forall|k: Seq<char>| #[trigger]
            db.contains_key(k) ==> exists|id: i64| k == #[trigger] user_key(id),
    ensures
        !wants_notification(db.insert(user_key(user), new), user),
{
    let after = db.insert(user_key(user), new);
    if wants_notification(after, user) {
        let k = choose|k: Seq<char>| #[trigger]
            after.contains_key(k) && after[k].restart_notifications && crate::text::parsed_i64(k)
                == Some(user);
        if k != user_key(user) {
            assert(db.contains_key(k));
            let id = choose|id: i64| k == #[trigger] user_key(id);
            crate::text::written_i64_reads_back(id);
        }
    }
}

/// A user whom the bot has not met hears of no restart, and has the voice
/// features on; one whom it has met has what was kept.
pub proof fn new_users_start_with_the_defaults(db: Map<Seq<char>, UserSettings>, user: i64)
    ensures
        !db.contains_key(crate::text::signed_decimal(user as int)) ==> settings_of(db, user) == (
        UserSettings { restart_notifications: false, voice_search: true, song_recognition: true }),
        db.contains_key(crate::text::signed_decimal(user as int)) ==> settings_of(db, user) == db[
        crate::text::signed_decimal(user as int)],
{
}

/// The users to notify are found in the order of their entries.
pub proof fn users_are_notified_in_order(
    a: Seq<(String, UserSettings)>,
    b: Seq<(String, UserSettings)>,
    entry: (String, UserSettings),
    id: i64,
)
    requires
        entry.0@ == crate::text::signed_decimal(id as int),
    ensures
        notified(a + b) == notified(a) + notified(b),
        entry.1.restart_notifications ==> notified(seq![entry]) == seq![id],
        !entry.1.restart_notifications ==> notified(seq![entry]).len() == 0,
    decreases b.len(),
{
    let one = seq![entry];
    assert(one.drop_last() =~= Seq::<(String, UserSettings)>::empty());
    assert(one.last() == entry);
    assert(notified(one.drop_last()) =~= Seq::<i64>::empty());
    crate::text::written_i64_reads_back(id);
    if entry.1.restart_notifications {
        assert(notified(one) =~= seq![id]);
    }
    if b.len() == 0 {
        assert(a + b =~= a);
        assert(notified(a) + notified(b) =~= notified(a));
    } else {
        users_are_notified_in_order(a, b.drop_last(), entry, id);
        assert((a + b).drop_last() =~= a + b.drop_last());
        assert((a + b).last() == b.last());
        assert(notified(a + b) =~= notified(a) + notified(b));
    }
}

} // verus!
