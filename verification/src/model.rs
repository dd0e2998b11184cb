//! The mathematical model of the application: the state as plain values,
//! and the step that each key and each finished job makes on it.

use crate::ollama::{assistant_role, user_role, ModelView, TurnView};
use crate::search::EntryView;
use crate::text::without_last;
use vstd::prelude::*;

verus! {

/// The view that is on screen.
#[derive(Debug, Clone, Copy, PartialEq, Eq, Structural)]
pub enum Tab {
    Chat,
    Models,
    Search,
}

/// A key press, as the handlers read it.
#[derive(Debug, Clone, Copy, PartialEq, Eq, Structural)]
pub enum Key {
    Char(char),
    Backspace,
    Enter,
    Esc,
    Tab,
    Up,
    Down,
    End,
    Other,
}

/// What a `Job` stands for in contracts.
pub ghost enum JobView {
    Chat { model: Seq<char>, messages: Seq<TurnView> },
    Delete { name: Seq<char> },
    Refresh,
    Search { query: Seq<char> },
    Popular,
}

/// Whatever changes the state: a key, a direct request, or what a finished
/// job writes. Each stands for one public operation of `AppState`.
pub ghost enum EventView {
    Key(Key),
    Submit,
    DeleteMessage(nat),
    DeleteModel(nat),
    ChatUpdate(Seq<char>),
    ChatFinished(Result<Seq<char>, Seq<char>>),
    ModelsListed(Result<Seq<ModelView>, Seq<char>>),
    ModelsRefreshed(Result<Seq<ModelView>, Seq<char>>),
    ModelDeleted(Seq<char>, Result<(), Seq<char>>),
    SearchFinished(Result<Seq<EntryView>, Seq<char>>),
}

/// The mathematical model of the application state.
pub ghost struct AppView {
    pub current_tab: Tab,
    pub selected_model: Option<Seq<char>>,
    pub models: Seq<ModelView>,
    pub messages: Seq<TurnView>,
    pub input_text: Seq<char>,
    pub is_loading: bool,
    pub search_query: Seq<char>,
    pub search_results: Seq<EntryView>,
    pub is_searching: bool,
    pub model_cursor: nat,
    pub search_cursor: nat,
    pub chat_cursor: nat,
    pub input_mode: bool,
    pub status_message: Option<Seq<char>>,
}

/// A cursor is in place on a list of `len` items: it points at an item, or
/// the list is empty and the cursor rests at 0.
pub open spec fn cursor_ok(cursor: nat, len: nat) -> bool {
    cursor < len || cursor == 0
}

/// One step down: to the next item, never past the last; nothing on an
/// empty list.
pub open spec fn cursor_down(cursor: nat, len: nat) -> nat {
    if len == 0 {
        cursor
    } else if cursor + 1 < len {
        cursor + 1
    } else {
        (len - 1) as nat
    }
}

/// One step up: to the item before, never before the first.
pub open spec fn cursor_up(cursor: nat) -> nat {
    if cursor == 0 {
        0
    } else {
        (cursor - 1) as nat
    }
}

/// The jump to the last item; nothing on an empty list.
pub open spec fn cursor_last(cursor: nat, len: nat) -> nat {
    if len == 0 {
        cursor
    } else {
        (len - 1) as nat
    }
}

/// The cursor brought back onto a list that may have shrunk.
pub open spec fn cursor_clamp(cursor: nat, len: nat) -> nat {
    if len == 0 {
        0
    } else if cursor < len {
        cursor
    } else {
        (len - 1) as nat
    }
}

/// The view that follows `tab` when the views are cycled.
pub open spec fn next_tab(tab: Tab) -> Tab {
    match tab {
        Tab::Chat => Tab::Models,
        Tab::Models => Tab::Search,
        Tab::Search => Tab::Chat,
    }
}

/// The models that stay when every model called `name` is taken out.
pub open spec fn models_without(models: Seq<ModelView>, name: Seq<char>) -> Seq<ModelView> {
    models.filter(|m: ModelView| m.name != name)
}

impl AppView {
    /// Every cursor is in place on its list.
    pub open spec fn wf(self) -> bool {
        &&& cursor_ok(self.model_cursor, self.models.len())
        &&& cursor_ok(self.search_cursor, self.search_results.len())
        &&& cursor_ok(self.chat_cursor, self.messages.len())
    }

    /// The state a session starts in.
    pub open spec fn initial() -> AppView {
        AppView {
            current_tab: Tab::Chat,
            selected_model: None,
            models: Seq::empty(),
            messages: Seq::empty(),
            input_text: Seq::empty(),
            is_loading: false,
            search_query: Seq::empty(),
            search_results: Seq::empty(),
            is_searching: false,
            model_cursor: 0,
            search_cursor: 0,
            chat_cursor: 0,
            input_mode: false,
            status_message: None,
        }
    }

    /// A chat turn can be submitted: there is text, a model is selected and
    /// no chat is in flight.
    pub open spec fn can_submit(self) -> bool {
        self.input_text.len() > 0 && self.selected_model is Some && !self.is_loading
    }

    /// The user's turn that a submit appends.
    pub open spec fn submitted_turn(self) -> TurnView {
        TurnView { role: user_role(), content: self.input_text }
    }

    /// The state after a submit: the user's turn and an empty turn of the
    /// model are appended, the input is cleared and the chat is in flight.
    pub open spec fn submitted(self) -> AppView {
        AppView {
            messages: self.messages.push(self.submitted_turn()).push(
                TurnView { role: assistant_role(), content: Seq::empty() },
            ),
            input_text: Seq::empty(),
            is_loading: true,
            input_mode: false,
            ..self
        }
    }

    /// The chat job that a submit starts: the conversation up to and with
    /// the user's new turn, for the selected model.
    pub open spec fn submitted_job(self) -> JobView {
        JobView::Chat {
            model: self.selected_model->0,
            messages: self.messages.push(self.submitted_turn()),
        }
    }

    /// The state without the turn at `index`; unchanged where there is no
    /// such turn.
    pub open spec fn without_message(self, index: nat) -> AppView {
        if index < self.messages.len() {
            AppView {
                messages: self.messages.remove(index as int),
                chat_cursor: cursor_clamp(self.chat_cursor, (self.messages.len() - 1) as nat),
                ..self
            }
        } else {
            self
        }
    }

    /// The conversation view's answer to one key: the next state and the
    /// job to start.
    pub open spec fn chat_step(self, key: Key) -> (AppView, Option<JobView>) {
        if self.input_mode {
            match key {
                Key::Char(c) => (AppView { input_text: self.input_text.push(c), ..self }, None),
                Key::Backspace => (
                    AppView { input_text: without_last(self.input_text), ..self },
                    None,
                ),
                Key::Enter => if self.can_submit() {
                    (self.submitted(), Some(self.submitted_job()))
                } else {
                    (self, None)
                },
                Key::Esc => (AppView { input_mode: false, ..self }, None),
                _ => (self, None),
            }
        } else if key == Key::Char('i') || key == Key::Char('a') || key == Key::Enter {
            (AppView { input_mode: self.selected_model is Some, ..self }, None)
        } else if key == Key::Char('j') || key == Key::Down {
            (
                AppView {
                    chat_cursor: cursor_down(self.chat_cursor, self.messages.len()),
                    ..self
                },
                None,
            )
        } else if key == Key::Char('k') || key == Key::Up {
            (AppView { chat_cursor: cursor_up(self.chat_cursor), ..self }, None)
        } else if key == Key::Char('G') || key == Key::End {
            (
                AppView {
                    chat_cursor: cursor_last(self.chat_cursor, self.messages.len()),
                    ..self
                },
                None,
            )
        } else if key == Key::Char('g') {
            (AppView { chat_cursor: 0, ..self }, None)
        } else if key == Key::Char('d') {
            (self.without_message(self.chat_cursor), None)
        } else {
            (self, None)
        }
    }

    /// The text shown while the model `name` is being deleted.
    pub open spec fn deleting_text(name: Seq<char>) -> Seq<char> {
        "Deleting "@ + name + "..."@
    }

    /// The answer to a request to delete the model at `index`: the status
    /// line names the model and a deletion job is started; where there is no
    /// such model, nothing happens.
    pub open spec fn delete_step(self, index: nat) -> (AppView, Option<JobView>) {
        if index < self.models.len() {
            (
                AppView {
                    status_message: Some(Self::deleting_text(self.models[index as int].name)),
                    ..self
                },
                Some(JobView::Delete { name: self.models[index as int].name }),
            )
        } else {
            (self, None)
        }
    }

    /// The model list's answer to one key.
    pub open spec fn models_step(self, key: Key) -> (AppView, Option<JobView>) {
        if key == Key::Char('j') || key == Key::Down {
            (
                AppView {
                    model_cursor: cursor_down(self.model_cursor, self.models.len()),
                    ..self
                },
                None,
            )
        } else if key == Key::Char('k') || key == Key::Up {
            (AppView { model_cursor: cursor_up(self.model_cursor), ..self }, None)
        } else if key == Key::Char('G') || key == Key::End {
            (
                AppView {
                    model_cursor: cursor_last(self.model_cursor, self.models.len()),
                    ..self
                },
                None,
            )
        } else if key == Key::Char('g') {
            (AppView { model_cursor: 0, ..self }, None)
        } else if key == Key::Enter {
            if self.model_cursor < self.models.len() {
                (
                    AppView {
                        selected_model: Some(self.models[self.model_cursor as int].name),
                        current_tab: Tab::Chat,
                        ..self
                    },
                    None,
                )
            } else {
                (self, None)
            }
        } else if key == Key::Char('d') {
            self.delete_step(self.model_cursor)
        } else if key == Key::Char('r') {
            (
                AppView { status_message: Some("Refreshing models..."@), ..self },
                Some(JobView::Refresh),
            )
        } else {
            (self, None)
        }
    }

    /// The job that a search for `query` starts: the popular entries for an
    /// empty query, a keyword search otherwise.
    pub open spec fn search_job(query: Seq<char>) -> JobView {
        if query.len() == 0 {
            JobView::Popular
        } else {
            JobView::Search { query }
        }
    }

    /// The search view's answer to one key.
    pub open spec fn search_step(self, key: Key) -> (AppView, Option<JobView>) {
        if key == Key::Char('j') || key == Key::Down {
            (
                AppView {
                    search_cursor: cursor_down(self.search_cursor, self.search_results.len()),
                    ..self
                },
                None,
            )
        } else if key == Key::Char('k') || key == Key::Up {
            (AppView { search_cursor: cursor_up(self.search_cursor), ..self }, None)
        } else if key == Key::Char('G') || key == Key::End {
            (
                AppView {
                    search_cursor: cursor_last(self.search_cursor, self.search_results.len()),
                    ..self
                },
                None,
            )
        } else if key == Key::Char('g') {
            (AppView { search_cursor: 0, ..self }, None)
        } else {
            match key {
                Key::Char(c) => (
                    AppView { search_query: self.search_query.push(c), ..self },
                    None,
                ),
                Key::Backspace => (
                    AppView { search_query: without_last(self.search_query), ..self },
                    None,
                ),
                Key::Enter => if self.is_searching {
                    (self, None)
                } else {
                    (
                        AppView { is_searching: true, ..self },
                        Some(Self::search_job(self.search_query)),
                    )
                },
                _ => (self, None),
            }
        }
    }

    /// The answer of the view on screen to one key.
    pub open spec fn view_step(self, key: Key) -> (AppView, Option<JobView>) {
        match self.current_tab {
            Tab::Chat => self.chat_step(key),
            Tab::Models => self.models_step(key),
            Tab::Search => self.search_step(key),
        }
    }

    /// The state after one key: the view on screen answers it, and the
    /// cycling key then moves on to the next view.
    pub open spec fn key_step(self, key: Key) -> AppView {
        let after = self.view_step(key).0;
        if key == Key::Tab {
            AppView { current_tab: next_tab(after.current_tab), ..after }
        } else {
            after
        }
    }

    /// The state after a sequence of keys.
    pub open spec fn after_keys(self, keys: Seq<Key>) -> AppView
        decreases keys.len(),
    {
        if keys.len() == 0 {
            self
        } else {
            self.after_keys(keys.drop_last()).key_step(keys.last())
        }
    }

    /// The state after a streamed increment: the text so far replaces the
    /// content of the last turn where the model wrote it.
    pub open spec fn chat_updated(self, text: Seq<char>) -> AppView {
        if self.messages.len() > 0 && self.messages.last().role == assistant_role() {
            AppView {
                messages: self.messages.update(
                    self.messages.len() - 1,
                    TurnView { role: assistant_role(), content: text },
                ),
                ..self
            }
        } else {
            self
        }
    }

    /// The status line after a failed chat.
    pub open spec fn chat_error_text(error: Seq<char>) -> Seq<char> {
        "Error: "@ + error
    }

    /// The state after a chat job has ended: the reply is in place, or the
    /// status line tells the failure; nothing is in flight either way.
    pub open spec fn chat_finished(self, outcome: Result<Seq<char>, Seq<char>>) -> AppView {
        match outcome {
            Ok(text) => AppView {
                is_loading: false,
                input_mode: true,
                ..self.chat_updated(text)
            },
            Err(error) => AppView {
                is_loading: false,
                input_mode: true,
                status_message: Some(Self::chat_error_text(error)),
                ..self
            },
        }
    }

    /// The status line after a failed listing.
    pub open spec fn list_error_text(error: Seq<char>) -> Seq<char> {
        "Failed to connect: "@ + error + ". Make sure Ollama is running."@
    }

    /// The state after a listing has ended: the list is replaced as a
    /// whole, or the status line tells the failure.
    pub open spec fn models_listed(self, outcome: Result<Seq<ModelView>, Seq<char>>) -> AppView {
        match outcome {
            Ok(models) => AppView {
                models,
                model_cursor: cursor_clamp(self.model_cursor, models.len()),
                ..self
            },
            Err(error) => AppView {
                status_message: Some(Self::list_error_text(error)),
                ..self
            },
        }
    }

    /// The state after a refresh that the user asked for has ended.
    pub open spec fn models_refreshed(self, outcome: Result<Seq<ModelView>, Seq<char>>) -> AppView {
        match outcome {
            Ok(models) => AppView {
                status_message: Some("Models refreshed"@),
                ..self.models_listed(outcome)
            },
            Err(error) => self.models_listed(outcome),
        }
    }

    /// The status line after the model `name` was deleted.
    pub open spec fn deleted_text(name: Seq<char>) -> Seq<char> {
        "Deleted "@ + name
    }

    /// The status line after a failed deletion.
    pub open spec fn delete_error_text(error: Seq<char>) -> Seq<char> {
        "Delete failed: "@ + error
    }

    /// The state after a deletion job for `name` has ended: the model is
    /// gone from the list and no longer selected, or the status line tells
    /// the failure.
    pub open spec fn model_deleted(self, name: Seq<char>, outcome: Result<(), Seq<char>>) -> AppView {
        match outcome {
            Ok(_) => AppView {
                models: models_without(self.models, name),
                model_cursor: cursor_clamp(
                    self.model_cursor,
                    models_without(self.models, name).len(),
                ),
                selected_model: if self.selected_model == Some(name) {
                    None
                } else {
                    self.selected_model
                },
                status_message: Some(Self::deleted_text(name)),
                ..self
            },
            Err(error) => AppView {
                status_message: Some(Self::delete_error_text(error)),
                ..self
            },
        }
    }

    /// The header of the conversation view: it names the selected model.
    pub open spec fn chat_header(self) -> Seq<char> {
        match self.selected_model {
            Some(name) => "Model: "@ + name,
            None => "Model: No model selected"@,
        }
    }

    /// The line that shows the search query, and that a search is running.
    pub open spec fn search_line(self) -> Seq<char> {
        if self.is_searching {
            "Search: "@ + self.search_query + " Searching..."@
        } else {
            "Search: "@ + self.search_query
        }
    }

    /// The state after one event.
    pub open spec fn after_event(self, event: EventView) -> AppView {
        match event {
            EventView::Key(key) => self.key_step(key),
            EventView::Submit => if self.can_submit() {
                self.submitted()
            } else {
                self
            },
            EventView::DeleteMessage(index) => self.without_message(index),
            EventView::DeleteModel(index) => self.delete_step(index).0,
            EventView::ChatUpdate(text) => self.chat_updated(text),
            EventView::ChatFinished(outcome) => self.chat_finished(outcome),
            EventView::ModelsListed(outcome) => self.models_listed(outcome),
            EventView::ModelsRefreshed(outcome) => self.models_refreshed(outcome),
            EventView::ModelDeleted(name, outcome) => self.model_deleted(name, outcome),
            EventView::SearchFinished(outcome) => self.search_finished(outcome),
        }
    }

    /// The state after a sequence of events.
    pub open spec fn after_events(self, events: Seq<EventView>) -> AppView
        decreases events.len(),
    {
        if events.len() == 0 {
            self
        } else {
            self.after_events(events.drop_last()).after_event(events.last())
        }
    }

    /// Background work is pending: a chat or a search is in flight.
    pub open spec fn busy(self) -> bool {
        self.is_loading || self.is_searching
    }

    /// The text of the footer: the status message where there is one, a
    /// loading notice while a chat is in flight, and the keys of the view
    /// on screen otherwise.
    pub open spec fn status_line(self) -> Seq<char> {
        match self.status_message {
            Some(text) => text,
            None => if self.is_loading {
                " Loading... "@
            } else {
                match self.current_tab {
                    Tab::Chat => if self.input_mode {
                        " INSERT: typing... | Esc: exit insert | Enter: send "@
                    } else {
                        " NORMAL: j/k: scroll | g: top | G: bottom | i/a/Enter: input | d: del msg | Tab: switch | Esc: quit "@
                    },
                    Tab::Models => " j/k: select | Enter: use | d: delete | r: refresh | Tab: switch | Esc: quit "@,
                    Tab::Search => " j/k: select | Enter: search | Tab: switch | Esc: quit "@,
                }
            },
        }
    }

    /// The status line after a failed search.
    pub open spec fn search_error_text(error: Seq<char>) -> Seq<char> {
        "Search failed: "@ + error
    }

    /// The state after a search job has ended: the results are replaced as
    /// a whole, by nothing where the search failed, and no search is in
    /// flight.
    pub open spec fn search_finished(self, outcome: Result<Seq<EntryView>, Seq<char>>) -> AppView {
        match outcome {
            Ok(results) => AppView {
                search_results: results,
                search_cursor: cursor_clamp(self.search_cursor, results.len()),
                is_searching: false,
                ..self
            },
            Err(error) => AppView {
                search_results: Seq::empty(),
                search_cursor: 0,
                is_searching: false,
                status_message: Some(Self::search_error_text(error)),
                ..self
            },
        }
    }
}

} // verus!
