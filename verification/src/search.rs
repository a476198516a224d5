//! Searches and their results.

use vstd::prelude::*;

use crate::flow::{
    callback, cancel_button, edit, edit_with, row, send, Action, AfterSearch, Button, Pending,
    SearchKind, Step,
};
use crate::json::Json;
use crate::text::{shorten, usize_text};

verus! {

/// The title and artist of a result after its number.
pub open spec fn numbered(i: int, item: crate::json::JsonView) -> Seq<char> {
    crate::text::decimal((i + 1) as nat) + ". "@ + item.field("title"@).str_or("?"@) + " — "@
        + item.field("artist"@).field("name"@).str_or("?"@)
}

/// All results, one to a line.
pub open spec fn listing_of(results: Seq<crate::json::JsonView>) -> Seq<char>
    decreases results.len(),
{
    if results.len() == 0 {
        Seq::empty()
    } else {
        listing_of(results.drop_last()) + numbered(results.len() - 1, results.last()) + "\n"@
    }
}

/// The most characters that a button shows.
pub const MAX_LABEL: usize = 60;

/// The button that queues a result.
pub open spec fn result_row(
    i: int,
    item: crate::json::JsonView,
    icon: Seq<char>,
) -> Seq<crate::flow::ButtonView> {
    seq![
        crate::flow::ButtonView::Callback {
            label: crate::text::shortened(icon + " "@ + numbered(i, item), MAX_LABEL as nat),
            data: "dl:"@ + item.field("link"@).str_or(""@),
        },
    ]
}

/// The buttons that queue the results, one to a row.
pub open spec fn result_rows(results: Seq<crate::json::JsonView>, icon: Seq<char>) -> Seq<
    Seq<crate::flow::ButtonView>,
> {
    Seq::new(results.len(), |i: int| result_row(i, results[i], icon))
}

fn numbered_text(i: usize, item: &Json) -> (r: String)
    requires
        i < usize::MAX,
    ensures
        r@ == numbered(i as int, item.deep_view()),
{
    let title = item.field("title").str_or("?");
    let artist = item.field("artist").field("name").str_or("?");
    usize_text(i + 1).concat(". ").concat(title).concat(" — ").concat(artist)
}

/// The results of a search as a numbered list, and a button for each. Long
/// labels are cut, so the list carries the full names and the buttons refer to
/// its numbers.
pub fn build_search_results(results: &Vec<Json>, icon: &str) -> (r: (String, Vec<Vec<Button>>))
    ensures
        r.0@ == listing_of(results.deep_view()),
        r.1.deep_view() == result_rows(results.deep_view(), icon@),
{
    let ghost all = results.deep_view();
    let mut listing = String::new();
    let mut buttons: Vec<Vec<Button>> = Vec::new();
    let mut i: usize = 0;
    proof {
        assert(buttons.deep_view() =~= result_rows(all.take(0), icon@));
    }
    while i < results.len()
        invariant
            all == results.deep_view(),
            i <= results@.len(),
            listing@ == listing_of(all.take(i as int)),
            buttons.deep_view() == result_rows(all.take(i as int), icon@),
        decreases results@.len() - i,
    {
        let ghost before = buttons.deep_view();
        let item = &results[i];
        proof {
            assert(all.take(i + 1).drop_last() == all.take(i as int));
            assert(all.take(i + 1).last() == item.deep_view());
        }
        let line = numbered_text(i, item);
        listing = listing.concat(line.as_str()).concat("\n");
        let label = icon.to_owned().concat(" ").concat(line.as_str());
        let label = shorten(label.as_str(), MAX_LABEL);
        let data = "dl:".to_owned().concat(item.field("link").str_or(""));
        let button = row(callback(label.as_str(), data.as_str()));
        let ghost added = button.deep_view();
        buttons.push(button);
        proof {
            assert(added =~= result_row(i as int, item.deep_view(), icon@));
            assert(buttons.deep_view() =~= before.push(added));
            assert(result_rows(all.take(i + 1), icon@) =~= result_rows(
                all.take(i as int),
                icon@,
            ).push(added));
        }
        i += 1;
    }
    assert(all.take(i as int) == all);
    (listing, buttons)
}

/// Each result has one button, whose label fits and whose data names the link
/// of the result.
pub proof fn every_result_has_its_button(
    results: Seq<crate::json::JsonView>,
    icon: Seq<char>,
    i: int,
)
    requires
        0 <= i < results.len(),
    ensures
        result_rows(results, icon).len() == results.len(),
        result_rows(results, icon)[i].len() == 1,
        result_rows(results, icon)[i][0] matches crate::flow::ButtonView::Callback { label, data }
            && label.len() <= MAX_LABEL && data == "dl:"@ + results[i].field("link"@).str_or(""@),
{
}

proof fn lemma_listed(results: Seq<crate::json::JsonView>, i: int)
    requires
        0 <= i < results.len(),
    ensures
        exists|at: int|
            crate::text::occurs_at(listing_of(results), numbered(i, results[i]), at),
    decreases results.len(),
{
    let front = listing_of(results.drop_last());
    let line = numbered(results.len() - 1, results.last());
    let listing = listing_of(results);
    if i < results.len() - 1 {
        lemma_listed(results.drop_last(), i);
        let wanted = numbered(i, results[i]);
        let at = choose|at: int| crate::text::occurs_at(front, wanted, at);
        assert(listing.subrange(at, at + wanted.len()) =~= front.subrange(at, at + wanted.len()));
        assert(crate::text::occurs_at(listing, wanted, at));
    } else {
        let at = front.len() as int;
        assert(listing.subrange(at, at + line.len()) =~= line);
        assert(crate::text::occurs_at(listing, line, at));
    }
}

/// However long it is, every result stands in full in the listing, under the
/// number that its button shows.
pub proof fn the_listing_names_every_result(results: Seq<crate::json::JsonView>, i: int)
    requires
        0 <= i < results.len(),
    ensures
        crate::text::occurs_in(listing_of(results), numbered(i, results[i])),
{
    lemma_listed(results, i);
}

/// The message that offers results.
pub open spec fn offer(
    query: Seq<char>,
    results: Seq<crate::json::JsonView>,
    icon: Seq<char>,
) -> crate::flow::ActionView {
    crate::flow::edited_with(
        "Results for "@ + query + ":\n\n"@ + listing_of(results) + "\nTap a button to download."@,
        result_rows(results, icon).push(crate::flow::cancel_row()),
    )
}

pub(crate) fn offer_results(query: &str, results: &Vec<Json>, icon: &str) -> (r: Action)
    ensures
        r.deep_view() == offer(query@, results.deep_view(), icon@),
{
    let (listing, mut buttons) = build_search_results(results, icon);
    let ghost before = buttons.deep_view();
    buttons.push(cancel_button());
    assert(buttons.deep_view() =~= before.push(crate::flow::cancel_row()));
    let text = "Results for ".to_owned().concat(query).concat(":\n\n").concat(
        listing.as_str(),
    ).concat("\nTap a button to download.");
    edit_with(text.as_str(), buttons)
}

/// The step that searches for what a user asked for.
pub open spec fn search_step(query: Seq<char>, kind: SearchKind) -> crate::flow::StepView {
    crate::flow::idle().act(crate::flow::sent("🔍 Searching for "@ + query + "..."@)).wait(
        crate::flow::PendingView::Search {
            query,
            kind,
            after: crate::flow::AfterSearchView::List { query, kind },
        },
    )
}

pub fn do_search(query: &str, kind: SearchKind) -> (r: Step)
    ensures
        r.deep_view() == search_step(query@, kind),
{
    let text = "🔍 Searching for ".to_owned().concat(query).concat("...");
    Step::new().act(send(text.as_str())).wait(
        Pending::Search {
            query: query.to_owned(),
            kind,
            after: AfterSearch::List { query: query.to_owned(), kind },
        },
    )
}

/// What is shown of a search.
pub open spec fn search_shown(
    query: Seq<char>,
    kind: SearchKind,
    results: Result<Seq<crate::json::JsonView>, Seq<char>>,
) -> crate::flow::StepView {
    match results {
        Ok(found) => if found.len() == 0 {
            crate::flow::idle().act(crate::flow::edited("😕 No results found."@))
        } else {
            crate::flow::idle().act(offer(query, found, crate::flow::icon_of(kind)))
        },
        Err(e) => crate::flow::idle().act(crate::flow::edited("❌ Search failed: "@ + e)),
    }
}

/// Shows the results of a search.
pub fn show_search(query: &str, kind: SearchKind, results: Result<Vec<Json>, String>) -> (r: Step)
    ensures
        r.deep_view() == search_shown(query@, kind, crate::flow::result_view(results)),
{
    match results {
        Ok(found) => {
            assert(found.deep_view().len() == found@.len());
            if found.len() == 0 {
                Step::new().act(edit("😕 No results found."))
            } else {
                Step::new().act(offer_results(query, &found, kind.icon()))
            }
        },
        Err(e) => Step::new().act(
            edit("❌ Search failed: ".to_owned().concat(e.as_str()).as_str()),
        ),
    }
}

// ── What holds of a list of results ──────────────────────────────────────────

/// A line of the list gives the place of a result, counted from one, its title
/// and its artist.
pub proof fn a_line_names_its_result(
    i: int,
    item: crate::json::JsonView,
    title: Seq<char>,
    artist: Seq<char>,
)
    requires
        0 <= i,
        item.field("title"@) == crate::json::JsonView::Str(title),
        item.field("artist"@).field("name"@) == crate::json::JsonView::Str(artist),
    ensures
        numbered(i, item) == crate::text::decimal((i + 1) as nat) + ". "@ + title + " — "@ + artist,
{
}

/// The list holds the lines of its results in their order, each on its own, and
/// one more result adds one more line at its end.
pub proof fn a_list_grows_at_its_end(
    results: Seq<crate::json::JsonView>,
    more: crate::json::JsonView,
)
    ensures
        listing_of(results.push(more)) == listing_of(results) + numbered(
            results.len() as int,
            more,
        ) + "\n"@,
        listing_of(Seq::empty()).len() == 0,
{
    assert(results.push(more).drop_last() =~= results);
}

/// The button of a result says what the result's line says, behind the icon, as
/// far as there is room, and carries the result's link.
pub proof fn a_button_shows_its_result(
    results: Seq<crate::json::JsonView>,
    icon: Seq<char>,
    i: int,
)
    requires
        0 <= i < results.len(),
    ensures
        ({
            let line = icon + " "@ + numbered(i, results[i]);
            result_rows(results, icon)[i] matches row && row.len() == 1 && (
            row[0] matches crate::flow::ButtonView::Callback { label, data } && (line.len() <= 60
                ==> label == line) && (line.len() > 60 ==> label.len() == 60 && label.drop_last()
                == line.take(59) && label.last() == '…') && (results[i].field(
                "link"@,
            ) matches crate::json::JsonView::Str(link) ==> data == "dl:"@ + link))
        }),
{
    let line = icon + " "@ + numbered(i, results[i]);
    crate::text::shortening_keeps_the_beginning(line, 60);
}

/// What was found is offered whole, under what was searched for, with a button to
/// cancel at the end.
pub proof fn all_results_are_offered(
    query: Seq<char>,
    kind: SearchKind,
    found: Seq<crate::json::JsonView>,
    e: Seq<char>,
)
    ensures
        found.len() > 0 ==> ({
            let step = search_shown(query, kind, Ok(found));
            &&& step.next == crate::flow::PendingView::Done
            &&& step.actions.len() == 1
            &&& step.actions[0] matches crate::flow::ActionView::Edit {
                text,
                markup: crate::flow::MarkupView::Inline(rows),
            } && text == "Results for "@ + query + ":\n\n"@ + listing_of(found)
                + "\nTap a button to download."@ && rows.len() == found.len() + 1 && rows.last()
                == crate::flow::cancel_row() && forall|i: int|
                0 <= i < found.len() ==> #[trigger] rows[i] == result_row(
                    i,
                    found[i],
                    match kind {
                        SearchKind::Track => "🎵"@,
                        SearchKind::Album => "💿"@,
                    },
                )
        }),
        found.len() == 0 ==> search_shown(query, kind, Ok(found)).actions == seq![
            crate::flow::ActionView::Edit {
                text: "😕 No results found."@,
                markup: crate::flow::MarkupView::Plain,
            },
        ],
        search_shown(query, kind, Err(e)).actions == seq![
            crate::flow::ActionView::Edit {
                text: "❌ Search failed: "@ + e,
                markup: crate::flow::MarkupView::Plain,
            },
        ],
{
    if found.len() == 0 {
        assert(search_shown(query, kind, Ok(found)).actions =~= seq![
            crate::flow::ActionView::Edit {
                text: "😕 No results found."@,
                markup: crate::flow::MarkupView::Plain,
            },
        ]);
    }
    assert(search_shown(query, kind, Err(e)).actions =~= seq![
        crate::flow::ActionView::Edit {
            text: "❌ Search failed: "@ + e,
            markup: crate::flow::MarkupView::Plain,
        },
    ]);
}

/// A query is searched for as it was given.
pub proof fn a_query_is_searched_for_unchanged(query: Seq<char>, kind: SearchKind)
    ensures
        search_step(query, kind).next == (crate::flow::PendingView::Search {
            query,
            kind,
            after: crate::flow::AfterSearchView::List { query, kind },
        }),
        crate::flow::name_of(SearchKind::Track) == "track"@,
        crate::flow::name_of(SearchKind::Album) == "album"@,
{
}

/// A result without a title, an artist or a link is still listed, with a question
/// mark in place of what is missing and an empty link.
pub proof fn missing_names_show_as_question_marks(
    i: int,
    item: crate::json::JsonView,
    icon: Seq<char>,
)
    requires
        0 <= i,
    ensures
        !(item.field("title"@) is Str) && !(item.field("artist"@).field("name"@) is Str)
            ==> numbered(i, item) == crate::text::decimal((i + 1) as nat) + ". "@ + "?"@ + " — "@
            + "?"@,
        !(item.field("link"@) is Str) ==> (result_row(
            i,
            item,
            icon,
        )[0] matches crate::flow::ButtonView::Callback { label, data } && data == "dl:"@ + ""@),
{
}

} // verus!
