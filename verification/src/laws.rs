//! What holds of the application in every state: the cursors stay on their
//! lists, a submit happens only where it can, and no flag stays set.

use crate::model::{AppView, EventView, JobView, Key};
use crate::ollama::{assistant_role, user_role, ModelView, TurnView};
use crate::search::EntryView;
use vstd::prelude::*;

verus! {

/// Each view's answer to a key leaves every cursor in place.
pub proof fn lemma_view_steps_keep_cursors(s: AppView, key: Key)
    requires
        s.wf(),
    ensures
        s.chat_step(key).0.wf(),
        s.models_step(key).0.wf(),
        s.search_step(key).0.wf(),
        s.view_step(key).0.wf(),
        s.key_step(key).wf(),
{
}

/// Whatever keys are pressed, every cursor stays in place on its list: it
/// never leaves the list, and rests at 0 while the list is empty.
pub proof fn lemma_keys_keep_cursors(s: AppView, keys: Seq<Key>)
    requires
        s.wf(),
    ensures
        s.after_keys(keys).wf(),
    decreases keys.len(),
{
    if keys.len() > 0 {
        lemma_keys_keep_cursors(s, keys.drop_last());
        lemma_view_steps_keep_cursors(s.after_keys(keys.drop_last()), keys.last());
    }
}

/// In every state that a session can reach, whatever keys were pressed and
/// whatever the jobs wrote in between, every cursor is in place on its list.
pub proof fn lemma_events_keep_cursors(events: Seq<EventView>)
    ensures
        AppView::initial().after_events(events).wf(),
    decreases events.len(),
{
    if events.len() > 0 {
        lemma_events_keep_cursors(events.drop_last());
        let s = AppView::initial().after_events(events.drop_last());
        match events.last() {
            EventView::Key(key) => {
                lemma_view_steps_keep_cursors(s, key);
            },
            _ => {},
        }
    }
}

/// A key pressed while a list is empty leaves the cursor of that list
/// where it was.
pub proof fn lemma_empty_list_keeps_cursor(s: AppView, key: Key)
    requires
        s.wf(),
    ensures
        s.models.len() == 0 ==> s.key_step(key).model_cursor == s.model_cursor,
        s.search_results.len() == 0 ==> s.key_step(key).search_cursor == s.search_cursor,
        s.messages.len() == 0 ==> s.key_step(key).chat_cursor == s.chat_cursor,
{
}

/// What a finished job writes leaves every cursor in place, also where the
/// list it replaces has shrunk.
pub proof fn lemma_results_keep_cursors(
    s: AppView,
    text: Seq<char>,
    reply: Result<Seq<char>, Seq<char>>,
    listing: Result<Seq<ModelView>, Seq<char>>,
    name: Seq<char>,
    deletion: Result<(), Seq<char>>,
    results: Result<Seq<EntryView>, Seq<char>>,
)
    requires
        s.wf(),
    ensures
        s.chat_updated(text).wf(),
        s.chat_finished(reply).wf(),
        s.models_listed(listing).wf(),
        s.models_refreshed(listing).wf(),
        s.model_deleted(name, deletion).wf(),
        s.search_finished(results).wf(),
{
}

/// The submit key changes neither the conversation nor the in-flight flag,
/// and starts no job, while the input is empty or no model is selected.
pub proof fn lemma_submit_needs_text_and_model(s: AppView)
    requires
        s.input_text.len() == 0 || s.selected_model is None,
    ensures
        s.chat_step(Key::Enter).0.messages == s.messages,
        s.chat_step(Key::Enter).0.is_loading == s.is_loading,
        s.chat_step(Key::Enter).1 is None,
        s.input_mode ==> s.chat_step(Key::Enter).0 == s,
{
}

/// The submit key starts nothing while a chat is in flight.
pub proof fn lemma_submit_waits_for_reply(s: AppView)
    requires
        s.is_loading,
    ensures
        s.chat_step(Key::Enter).0.messages == s.messages,
        s.chat_step(Key::Enter).1 is None,
{
}

/// A submit appends exactly two turns, the user's with the submitted text
/// and then an empty one of the model, and sets the in-flight flag; the end
/// of a chat job, whatever it is and whatever state it meets, clears the
/// flag.
pub proof fn lemma_submit_appends_two_turns(
    s: AppView,
    later: AppView,
    outcome: Result<Seq<char>, Seq<char>>,
)
    requires
        s.input_mode,
        s.can_submit(),
    ensures
        s.chat_step(Key::Enter).0.messages == s.messages + seq![
            TurnView { role: user_role(), content: s.input_text },
            TurnView { role: assistant_role(), content: Seq::empty() },
        ],
        s.chat_step(Key::Enter).0.is_loading,
        s.chat_step(Key::Enter).0.input_text.len() == 0,
        !later.chat_finished(outcome).is_loading,
{
    assert(s.submitted().messages =~= s.messages + seq![
        TurnView { role: user_role(), content: s.input_text },
        TurnView { role: assistant_role(), content: Seq::empty() },
    ]);
}

/// The end of a search job, whatever it is, clears the searching flag.
pub proof fn lemma_search_flag_cleared(s: AppView, outcome: Result<Seq<EntryView>, Seq<char>>)
    ensures
        !s.search_finished(outcome).is_searching,
{
}

/// A request to delete at an index that the list does not have changes
/// nothing and starts no job; so it is with the turns of the conversation.
pub proof fn lemma_delete_out_of_range(s: AppView, index: nat)
    ensures
        index >= s.models.len() ==> s.delete_step(index) == (s, None::<JobView>),
        index >= s.messages.len() ==> s.without_message(index) == s,
{
}

} // verus!
