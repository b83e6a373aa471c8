//! What holds of the browser whatever the user does.

use crate::entry::{
    canonical, distinct_paths, lemma_canonical_is_sorted_listing, lemma_sorted_listing_unique,
    sorted, EntryKind, EntryModel,
};
use crate::input_handler::{step, Event};
use crate::model::{InputMode, Mode, State};
use crate::path::parent_of;
use crate::request::{IoError, RequestModel, ResponseModel};
use crate::search::{
    entry_score, entry_scores, first_hit, is_first_hit, lemma_first_hit_in_range,
    lemma_first_hit_is,
};
use vstd::prelude::*;

verus! {

/// No event leads out of the valid states.
pub proof fn lemma_step_keeps_inv(s: State, event: Event)
    requires
        s.inv(),
    ensures
        step(s, event).inv(),
{
    lemma_first_hit_in_range(entry_scores(s.files, s.query()), s.files.len());
}

/// No answer leads out of the valid states.
pub proof fn lemma_resume_keeps_inv(s: State, response: ResponseModel)
    requires
        s.inv(),
    ensures
        s.resumed(response).inv(),
{
    match response {
        ResponseModel::Listed(Ok(l)) => lemma_canonical_is_sorted_listing(l),
        ResponseModel::Mutated(_, Ok(l)) => lemma_canonical_is_sorted_listing(l),
        _ => {},
    }
}

/// No text is left over from another mode: a query is held only in search
/// mode, a name and a waiting change only while the menu takes a name,
/// and the menu takes a name only in menu mode.
pub open spec fn tidy(s: State) -> bool {
    &&& (s.mode != Mode::Search ==> s.search_buffer.len() == 0)
    &&& (s.mode != Mode::Menu ==> s.input_mode == InputMode::Normal)
    &&& (s.input_mode == InputMode::Normal ==> s.input_buffer.len() == 0 && s.menu_action.is_none())
}

/// A browser that was just started is in a valid state and holds no text.
pub proof fn lemma_initial_is_valid(dir: Seq<char>, children: Seq<EntryModel>)
    ensures
        State::initial(dir, children).inv(),
        tidy(State::initial(dir, children)),
{
    lemma_canonical_is_sorted_listing(children);
}

/// Texts are dropped when they are sent and when they are given up: no
/// event leaves a query or a name behind in a mode that does not edit it.
pub proof fn lemma_step_keeps_tidy(s: State, event: Event)
    requires
        s.inv(),
        tidy(s),
    ensures
        tidy(step(s, event)),
{
}

/// An answer changes no mode and no text.
pub proof fn lemma_resume_keeps_tidy(s: State, response: ResponseModel)
    requires
        tidy(s),
    ensures
        tidy(s.resumed(response)),
        s.resumed(response).mode == s.mode,
        s.resumed(response).input_mode == s.input_mode,
        s.resumed(response).input_buffer == s.input_buffer,
        s.resumed(response).search_buffer == s.search_buffer,
        s.resumed(response).menu_action == s.menu_action,
{
}

/// What happens to the browser: an event from the terminal, or the answer
/// to its request.
pub enum Input {
    Event(Event),
    Answer(ResponseModel),
}

/// The state after one input.
pub open spec fn after(s: State, input: Input) -> State {
    match input {
        Input::Event(event) => step(s, event),
        Input::Answer(response) => s.resumed(response),
    }
}

/// The state after a sequence of inputs.
pub open spec fn run(s: State, inputs: Seq<Input>) -> State
    decreases inputs.len(),
{
    if inputs.len() == 0 {
        s
    } else {
        after(run(s, inputs.drop_last()), inputs.last())
    }
}

/// Whatever happens in a session, the state stays valid: the selection
/// stays inside the sorted listing (at 0 where it is empty), the scroll
/// offset stays within one page of the preview, a change waits for a name
/// only while one is typed, and no text is left over from another mode.
pub proof fn lemma_session_keeps_inv(s: State, inputs: Seq<Input>)
    requires
        s.inv(),
        tidy(s),
    ensures
        run(s, inputs).inv(),
        tidy(run(s, inputs)),
    decreases inputs.len(),
{
    if inputs.len() > 0 {
        let before = run(s, inputs.drop_last());
        lemma_session_keeps_inv(s, inputs.drop_last());
        match inputs.last() {
            Input::Event(event) => {
                lemma_step_keeps_inv(before, event);
                lemma_step_keeps_tidy(before, event);
            },
            Input::Answer(response) => {
                lemma_resume_keeps_inv(before, response);
                lemma_resume_keeps_tidy(before, response);
            },
        }
    }
}

/// One move of the user through the listing, or the preview that came
/// back for the last one.
pub enum Browse {
    Up,
    Down,
    Loaded(Result<Seq<char>, IoError>),
}

/// The state after a sequence of moves through the listing.
pub open spec fn browse(s: State, moves: Seq<Browse>) -> State
    decreases moves.len(),
{
    if moves.len() == 0 {
        s
    } else {
        let before = browse(s, moves.drop_last());
        match moves.last() {
            Browse::Up => before.up(),
            Browse::Down => before.down(),
            Browse::Loaded(text) => before.resumed(ResponseModel::Read(text)),
        }
    }
}

/// Whatever sequence of Up and Down is pressed in a directory that is not
/// empty, with or without the previews coming back in between, the
/// listing stays as it is and the selection stays inside it.
pub proof fn lemma_browse_keeps_selection(s: State, moves: Seq<Browse>)
    requires
        s.inv(),
        s.files.len() > 0,
    ensures
        browse(s, moves).inv(),
        browse(s, moves).files == s.files,
        browse(s, moves).current_dir == s.current_dir,
        browse(s, moves).selected < s.files.len(),
    decreases moves.len(),
{
    if moves.len() > 0 {
        lemma_browse_keeps_selection(s, moves.drop_last());
    }
}

/// Up from the first entry leads to the last, Down from the last to the
/// first, and everywhere else they move by one.
pub proof fn lemma_selection_wraps(s: State)
    requires
        s.inv(),
        s.files.len() > 0,
    ensures
        s.up().selected == if s.selected == 0 {
            s.files.len() - 1
        } else {
            s.selected - 1
        },
        s.down().selected == if s.selected == s.files.len() - 1 {
            0
        } else {
            s.selected + 1
        },
        s.up().down().selected == s.selected,
        s.down().up().selected == s.selected,
{
}

/// In an empty directory Up and Down leave the selection at 0 and ask for
/// nothing.
pub proof fn lemma_empty_listing_stays(s: State)
    requires
        s.inv(),
        s.files.len() == 0,
    ensures
        s.up() == s.asking(RequestModel::Idle),
        s.down() == s.asking(RequestModel::Idle),
        s.up().selected == 0,
        s.down().selected == 0,
{
}

/// A search whose query matches the name of exactly one entry selects that
/// entry.
pub proof fn lemma_search_selects_only_match(s: State, k: nat)
    requires
        s.inv(),
        s.query().len() > 0,
        k < s.files.len(),
        forall|i: int|
            0 <= i < s.files.len() ==> (#[trigger] entry_score(s.files[i].path, s.query())).is_some()
                == (i == k),
    ensures
        s.find().selected == k,
        s.find().files == s.files,
{
    let scores = entry_scores(s.files, s.query());
    assert(is_first_hit(scores, s.files.len(), Some(k)));
    lemma_first_hit_is(scores, s.files.len(), Some(k));
}

/// A search selects the first entry, in listing order, whose name the
/// query matches.
pub proof fn lemma_search_selects_first_match(s: State, k: nat)
    requires
        s.inv(),
        s.query().len() > 0,
        k < s.files.len(),
        entry_score(s.files[k as int].path, s.query()).is_some(),
        forall|i: int| 0 <= i < k ==> (#[trigger] entry_score(s.files[i].path, s.query())).is_none(),
    ensures
        s.find().selected == k,
{
    let scores = entry_scores(s.files, s.query());
    assert(is_first_hit(scores, s.files.len(), Some(k)));
    lemma_first_hit_is(scores, s.files.len(), Some(k));
}

/// A search whose query matches no entry, or is empty, leaves the
/// selection where it was.
pub proof fn lemma_search_without_match(s: State)
    requires
        s.inv(),
        s.query().len() == 0 || forall|i: int|
            0 <= i < s.files.len() ==> (#[trigger] entry_score(s.files[i].path, s.query())).is_none(),
    ensures
        s.find().selected == s.selected,
        s.find().files == s.files,
{
    if s.query().len() > 0 {
        let scores = entry_scores(s.files, s.query());
        assert(is_first_hit(scores, s.files.len(), None));
        lemma_first_hit_is(scores, s.files.len(), None);
    }
}

/// The state after Enter on the selected directory, whose children are
/// `inside`, and then a step to its parent, whose children are `above`.
pub open spec fn entered_and_left(
    s: State,
    inside: Seq<EntryModel>,
    above: Seq<EntryModel>,
) -> State {
    s.enter().resumed(ResponseModel::Listed(Ok(inside))).to_parent().resumed(
        ResponseModel::Listed(Ok(above)),
    )
}

/// Entering the selected directory and going to its parent ends in that
/// parent, with the parent's listing in canonical order, the selection
/// on its first entry and no preview.
pub proof fn lemma_enter_then_parent(s: State, inside: Seq<EntryModel>, above: Seq<EntryModel>)
    requires
        s.inv(),
        s.selected_entry() matches Some(e) && e.kind == EntryKind::Directory,
        parent_of(s.selected_entry().unwrap().path).is_some(),
    ensures
        ({
            let end = entered_and_left(s, inside, above);
            &&& end.inv()
            &&& Some(end.current_dir) == parent_of(s.selected_entry().unwrap().path)
            &&& end.files == canonical(above)
            &&& end.selected == 0
            &&& end.content.is_none()
            &&& end.pending == RequestModel::Idle
        }),
{
    lemma_canonical_is_sorted_listing(inside);
    lemma_canonical_is_sorted_listing(above);
}

/// Entering a directory of the listing and going back to where it lies,
/// while the children there stay the same and have different paths,
/// restores the listing entry for entry, whatever order the children are
/// read in, and puts the selection on the first.
pub proof fn lemma_enter_then_parent_restores(
    s: State,
    inside: Seq<EntryModel>,
    above: Seq<EntryModel>,
)
    requires
        s.inv(),
        s.selected_entry() matches Some(e) && e.kind == EntryKind::Directory,
        parent_of(s.selected_entry().unwrap().path) == Some(s.current_dir),
        above.to_multiset() == s.files.to_multiset(),
        distinct_paths(s.files),
    ensures
        ({
            let end = entered_and_left(s, inside, above);
            &&& end.current_dir == s.current_dir
            &&& end.files == s.files
            &&& end.selected == 0
        }),
{
    lemma_canonical_is_sorted_listing(inside);
    lemma_canonical_is_sorted_listing(above);
    lemma_sorted_listing_unique(s.files, canonical(above));
}

/// Two readings of the same children, in whatever order, give the same
/// listing, as long as no two children share a path.
pub proof fn lemma_listing_ignores_reading_order(a: Seq<EntryModel>, b: Seq<EntryModel>)
    requires
        a.to_multiset() == b.to_multiset(),
        distinct_paths(canonical(a)),
    ensures
        canonical(a) == canonical(b),
{
    lemma_canonical_is_sorted_listing(a);
    lemma_canonical_is_sorted_listing(b);
    lemma_sorted_listing_unique(canonical(a), canonical(b));
}

/// When the listing is put in place again, the selection stays on its
/// index where the new listing reaches that far, goes to the last entry
/// where it does not, and to 0 where the new listing is empty.
pub proof fn lemma_refresh_keeps_selection_inside(s: State, files: Seq<EntryModel>)
    requires
        s.inv(),
        sorted(files),
    ensures
        s.refreshed(files).inv(),
        files.len() == 0 ==> s.refreshed(files).selected == 0,
        files.len() > 0 ==> s.refreshed(files).selected < files.len(),
        s.selected < files.len() ==> s.refreshed(files).selected == s.selected,
        0 < files.len() <= s.selected ==> s.refreshed(files).selected == files.len() - 1,
{
}

/// A change to the file system is followed by a fresh listing whether it
/// went well or not: the listing that came back is put in place, the
/// selection is kept inside it, and a failure of the change is what is
/// reported.
pub proof fn lemma_change_always_refreshes(
    s: State,
    done: Result<(), IoError>,
    listing: Seq<EntryModel>,
)
    requires
        s.inv(),
        s.pending is Mutate,
    ensures
        ({
            let end = s.resumed(ResponseModel::Mutated(done, Ok(listing)));
            &&& end.inv()
            &&& end.files == canonical(listing)
            &&& end.selected == s.clamped(listing.len())
            &&& end.pending == RequestModel::Idle
            &&& match done {
                Ok(_) => s.report(ResponseModel::Mutated(done, Ok(listing))).is_ok(),
                Err(e) => s.report(ResponseModel::Mutated(done, Ok(listing))) == Err::<(), IoError>(e),
            }
        }),
{
    lemma_canonical_is_sorted_listing(listing);
}

/// A directory that cannot be listed is not moved into: the directory,
/// the listing, the selection and the preview stay as they were, and the
/// failure is reported.
pub proof fn lemma_failed_navigation_changes_nothing(s: State, e: IoError)
    requires
        s.pending is Navigate,
    ensures
        s.resumed(ResponseModel::Listed(Err(e))) == s.asking(RequestModel::Idle),
        s.report(ResponseModel::Listed(Err(e))) == Err::<(), IoError>(e),
{
}

/// A change is waiting for a name only while the menu takes one, and
/// taking it leaves none behind.
pub proof fn lemma_menu_action_taken_once(s: State)
    requires
        s.inv(),
    ensures
        s.menu_action.is_some() ==> s.input_mode == InputMode::Input,
        s.handle_menu_action().menu_action.is_none(),
        s.handle_menu_action().input_buffer.len() == 0,
        s.handle_menu_action().input_mode == InputMode::Normal,
{
}

} // verus!
