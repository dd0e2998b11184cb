//! The shared application state and the key handling of each view.
//!
//! Every handler takes the state and one key to the next state and, at
//! most, one background job for the caller to start. What a finished job
//! writes back is a function of its own. The contracts are stated over
//! `AppView`, the mathematical model of the state, and the steps on it.

use crate::laws::lemma_view_steps_keep_cursors;
use crate::model::{cursor_clamp, cursor_down, cursor_last, cursor_up, models_without, next_tab};
use crate::model::{AppView, JobView, Key, Tab};
use crate::ollama::{clone_turns, models_view, turns_view, ChatMessage, Model, ModelView, TurnView};
use crate::search::{entries_view, EntryView, OnlineModel};
use crate::text::some_text;
use vstd::prelude::*;
use vstd::string::*;

verus! {

/// Background work that a handler asks the caller to start.
#[derive(Debug)]
pub enum Job {
    /// One streamed chat round-trip with `model` on `messages`.
    Chat { model: String, messages: Vec<ChatMessage> },
    /// The deletion of the model `name`.
    Delete { name: String },
    /// A new listing of the installed models.
    Refresh,
    /// A keyword search of the catalog.
    Search { query: String },
    /// The catalog's popular entries.
    Popular,
}

impl View for Job {
    type V = JobView;

    open spec fn view(&self) -> JobView {
        match self {
            Job::Chat { model, messages } => JobView::Chat {
                model: model@,
                messages: turns_view(messages@),
            },
            Job::Delete { name } => JobView::Delete { name: name@ },
            Job::Refresh => JobView::Refresh,
            Job::Search { query } => JobView::Search { query: query@ },
            Job::Popular => JobView::Popular,
        }
    }
}

/// The view of an optional job.
pub open spec fn job_view(job: Option<Job>) -> Option<JobView> {
    match job {
        Some(j) => Some(j@),
        None => None,
    }
}

/// The view of what a chat job ended with.
pub open spec fn reply_view(outcome: Result<String, String>) -> Result<Seq<char>, Seq<char>> {
    match outcome {
        Ok(text) => Ok(text@),
        Err(error) => Err(error@),
    }
}

/// The view of what a listing ended with.
pub open spec fn listing_view(outcome: Result<Vec<Model>, String>) -> Result<
    Seq<ModelView>,
    Seq<char>,
> {
    match outcome {
        Ok(models) => Ok(models_view(models@)),
        Err(error) => Err(error@),
    }
}

/// The view of what a deletion ended with.
pub open spec fn deletion_view(outcome: Result<(), String>) -> Result<(), Seq<char>> {
    match outcome {
        Ok(_) => Ok(()),
        Err(error) => Err(error@),
    }
}

/// The view of what a search ended with.
pub open spec fn results_view(outcome: Result<Vec<OnlineModel>, String>) -> Result<
    Seq<EntryView>,
    Seq<char>,
> {
    match outcome {
        Ok(results) => Ok(entries_view(results@)),
        Err(error) => Err(error@),
    }
}

/// What a key asks of the caller: a job to start, and whether to leave.
#[derive(Debug)]
pub struct KeyOutcome {
    pub job: Option<Job>,
    pub quit: bool,
}

/// The application state: the single source of what is on screen.
#[derive(Debug)]
pub struct AppState {
    current_tab: Tab,
    selected_model: Option<String>,
    models: Vec<Model>,
    messages: Vec<ChatMessage>,
    input_text: String,
    is_loading: bool,
    search_query: String,
    search_results: Vec<OnlineModel>,
    is_searching: bool,
    model_cursor: usize,
    search_cursor: usize,
    chat_cursor: usize,
    input_mode: bool,
    status_message: Option<String>,
}

impl View for AppState {
    type V = AppView;

    closed spec fn view(&self) -> AppView {
        AppView {
            current_tab: self.current_tab,
            selected_model: some_text(self.selected_model),
            models: models_view(self.models@),
            messages: turns_view(self.messages@),
            input_text: self.input_text@,
            is_loading: self.is_loading,
            search_query: self.search_query@,
            search_results: entries_view(self.search_results@),
            is_searching: self.is_searching,
            model_cursor: self.model_cursor as nat,
            search_cursor: self.search_cursor as nat,
            chat_cursor: self.chat_cursor as nat,
            input_mode: self.input_mode,
            status_message: some_text(self.status_message),
        }
    }
}

fn step_down(cursor: usize, len: usize) -> (next: usize)
    ensures
        next == cursor_down(cursor as nat, len as nat),
{
    if len == 0 {
        cursor
    } else if cursor < len - 1 {
        cursor + 1
    } else {
        len - 1
    }
}

fn step_up(cursor: usize) -> (next: usize)
    ensures
        next == cursor_up(cursor as nat),
{
    if cursor == 0 {
        0
    } else {
        cursor - 1
    }
}

fn step_last(cursor: usize, len: usize) -> (next: usize)
    ensures
        next == cursor_last(cursor as nat, len as nat),
{
    if len == 0 {
        cursor
    } else {
        len - 1
    }
}

fn clamp(cursor: usize, len: usize) -> (next: usize)
    ensures
        next == cursor_clamp(cursor as nat, len as nat),
{
    if len == 0 {
        0
    } else if cursor < len {
        cursor
    } else {
        len - 1
    }
}

/// The view after `tab` when the views are cycled.
pub fn tab_after(tab: Tab) -> (next: Tab)
    ensures
        next == next_tab(tab),
{
    match tab {
        Tab::Chat => Tab::Models,
        Tab::Models => Tab::Search,
        Tab::Search => Tab::Chat,
    }
}

/// The models of `models` that are not called `name`, in order.
fn keep_other_models(models: &Vec<Model>, name: &String) -> (kept: Vec<Model>)
    ensures
        models_view(kept@) == models_without(models_view(models@), name@),
{
    let mut kept: Vec<Model> = Vec::new();
    let mut i: usize = 0;
    let ghost pred = |m: ModelView| m.name != name@;
    proof {
        reveal(Seq::filter);
        assert(models_view(models@.subrange(0, 0)) =~= Seq::<ModelView>::empty());
        assert(models_view(kept@) =~= Seq::<ModelView>::empty());
    }
    while i < models.len()
        invariant
            i <= models@.len(),
            pred == (|m: ModelView| m.name != name@),
            models_view(kept@) == models_view(models@.subrange(0, i as int)).filter(pred),
        decreases models@.len() - i,
    {
        let ghost before = models_view(models@.subrange(0, i as int));
        let ghost after = models_view(models@.subrange(0, i + 1));
        let ghost kept_before = models_view(kept@);
        proof {
            reveal(Seq::filter);
            assert(after.drop_last() =~= before);
            assert(after.last() == models@[i as int]@);
        }
        if models[i].name != *name {
            kept.push(models[i].clone());
            assert(models_view(kept@) =~= kept_before.push(models@[i as int]@));
        }
        i += 1;
    }
    assert(models@.subrange(0, i as int) =~= models@);
    kept
}

impl Default for AppState {
    /// The state a session starts in.
    fn default() -> (state: Self)
        ensures
            state@ == AppView::initial(),
            state@.wf(),
    {
        AppState::new()
    }
}

impl AppState {
    /// The state a session starts in: the conversation view, nothing
    /// listed, nothing in flight.
    pub fn new() -> (state: Self)
        ensures
            state@ == AppView::initial(),
            state@.wf(),
    {
        let state = AppState {
            current_tab: Tab::Chat,
            selected_model: None,
            models: Vec::new(),
            messages: Vec::new(),
            input_text: String::new(),
            is_loading: false,
            search_query: String::new(),
            search_results: Vec::new(),
            is_searching: false,
            model_cursor: 0,
            search_cursor: 0,
            chat_cursor: 0,
            input_mode: false,
            status_message: None,
        };
        assert(models_view(state.models@) =~= Seq::<ModelView>::empty());
        assert(turns_view(state.messages@) =~= Seq::<TurnView>::empty());
        assert(entries_view(state.search_results@) =~= Seq::<EntryView>::empty());
        assert(state@ =~= AppView::initial());
        state
    }

    /// The view on screen.
    pub fn current_tab(&self) -> (tab: Tab)
        ensures
            tab == self@.current_tab,
    {
        self.current_tab
    }

    /// The name of the model that chats go to, if one is selected.
    pub fn selected_model(&self) -> (name: &Option<String>)
        ensures
            some_text(*name) == self@.selected_model,
    {
        &self.selected_model
    }

    /// The installed models, as last listed.
    pub fn models(&self) -> (models: &Vec<Model>)
        ensures
            models_view(models@) == self@.models,
    {
        &self.models
    }

    /// The turns of the conversation, oldest first.
    pub fn messages(&self) -> (turns: &Vec<ChatMessage>)
        ensures
            turns_view(turns@) == self@.messages,
    {
        &self.messages
    }

    /// The text typed for the next chat turn.
    pub fn input_text(&self) -> (text: &str)
        ensures
            text@ == self@.input_text,
    {
        self.input_text.as_str()
    }

    /// Whether a chat is in flight.
    pub fn is_loading(&self) -> (yes: bool)
        ensures
            yes == self@.is_loading,
    {
        self.is_loading
    }

    /// The text typed for the next search.
    pub fn search_query(&self) -> (text: &str)
        ensures
            text@ == self@.search_query,
    {
        self.search_query.as_str()
    }

    /// The entries that the last search found.
    pub fn search_results(&self) -> (entries: &Vec<OnlineModel>)
        ensures
            entries_view(entries@) == self@.search_results,
    {
        &self.search_results
    }

    /// Whether a search is in flight.
    pub fn is_searching(&self) -> (yes: bool)
        ensures
            yes == self@.is_searching,
    {
        self.is_searching
    }

    /// The cursor of the model list.
    pub fn model_cursor(&self) -> (cursor: usize)
        ensures
            cursor == self@.model_cursor,
    {
        self.model_cursor
    }

    /// The cursor of the search results.
    pub fn search_cursor(&self) -> (cursor: usize)
        ensures
            cursor == self@.search_cursor,
    {
        self.search_cursor
    }

    /// The cursor of the conversation.
    pub fn chat_cursor(&self) -> (cursor: usize)
        ensures
            cursor == self@.chat_cursor,
    {
        self.chat_cursor
    }

    /// Whether the conversation view takes keys as text.
    pub fn input_mode(&self) -> (yes: bool)
        ensures
            yes == self@.input_mode,
    {
        self.input_mode
    }

    /// The transient status message, if there is one.
    pub fn status_message(&self) -> (text: &Option<String>)
        ensures
            some_text(*text) == self@.status_message,
    {
        &self.status_message
    }

    /// Whether background work is pending, so that the screen should be
    /// repainted at the tight rate.
    pub fn is_busy(&self) -> (yes: bool)
        ensures
            yes == self@.busy(),
    {
        self.is_loading || self.is_searching
    }

    /// The header of the conversation view.
    pub fn chat_header(&self) -> (line: String)
        ensures
            line@ == self@.chat_header(),
    {
        match &self.selected_model {
            Some(name) => String::from_str("Model: ").concat(name.as_str()),
            None => String::from_str("Model: No model selected"),
        }
    }

    /// The line that shows the search query.
    pub fn search_line(&self) -> (line: String)
        ensures
            line@ == self@.search_line(),
    {
        let line = String::from_str("Search: ").concat(self.search_query.as_str());
        if self.is_searching {
            line.concat(" Searching...")
        } else {
            line
        }
    }

    /// The text of the footer.
    pub fn status_line(&self) -> (line: String)
        ensures
            line@ == self@.status_line(),
    {
        match &self.status_message {
            Some(text) => text.clone(),
            None => {
                if self.is_loading {
                    String::from_str(" Loading... ")
                } else {
                    match self.current_tab {
                        Tab::Chat => {
                            if self.input_mode {
                                String::from_str(
                                    " INSERT: typing... | Esc: exit insert | Enter: send ",
                                )
                            } else {
                                String::from_str(
                                    " NORMAL: j/k: scroll | g: top | G: bottom | i/a/Enter: input | d: del msg | Tab: switch | Esc: quit ",
                                )
                            }
                        },
                        Tab::Models => String::from_str(
                            " j/k: select | Enter: use | d: delete | r: refresh | Tab: switch | Esc: quit ",
                        ),
                        Tab::Search => String::from_str(
                            " j/k: select | Enter: search | Tab: switch | Esc: quit ",
                        ),
                    }
                }
            },
        }
    }

    /// Submits the input as a chat turn where that is possible, and does
    /// nothing otherwise.
    pub fn submit(&mut self) -> (job: Option<Job>)
        ensures
            old(self)@.can_submit() ==> final(self)@ == old(self)@.submitted() && job_view(job)
                == Some(old(self)@.submitted_job()),
            !old(self)@.can_submit() ==> final(self)@ == old(self)@ && job is None,
            old(self)@.wf() ==> final(self)@.wf(),
    {
        if self.input_text.as_str().is_empty() || self.is_loading {
            return None;
        }
        let model = match &self.selected_model {
            Some(name) => name.clone(),
            None => {
                return None;
            },
        };
        let user_input = self.input_text.clone();
        self.input_text = String::new();
        self.messages.push(ChatMessage::user(user_input));
        let messages = clone_turns(&self.messages);
        self.messages.push(ChatMessage::assistant(String::new()));
        self.is_loading = true;
        self.input_mode = false;
        assert(turns_view(self.messages@) =~= old(self)@.submitted().messages);
        assert(self@ =~= old(self)@.submitted());
        assert(turns_view(messages@) =~= old(self)@.messages.push(old(self)@.submitted_turn()));
        Some(Job::Chat { model, messages })
    }

    /// Takes the turn at `index` out of the conversation; does nothing
    /// where the conversation has no such turn.
    pub fn delete_message_at(&mut self, index: usize)
        ensures
            final(self)@ == old(self)@.without_message(index as nat),
            old(self)@.wf() ==> final(self)@.wf(),
    {
        if index < self.messages.len() {
            self.messages.remove(index);
            self.chat_cursor = clamp(self.chat_cursor, self.messages.len());
            assert(turns_view(self.messages@) =~= turns_view(old(self).messages@).remove(
                index as int,
            ));
            assert(self@ =~= old(self)@.without_message(index as nat));
        }
    }

    /// The conversation view's answer to one key.
    pub fn handle_chat_input(&mut self, key: Key) -> (job: Option<Job>)
        ensures
            final(self)@ == old(self)@.chat_step(key).0,
            job_view(job) == old(self)@.chat_step(key).1,
            old(self)@.wf() ==> final(self)@.wf(),
    {
        proof {
            if self@.wf() {
                lemma_view_steps_keep_cursors(self@, key);
            }
        }
        if self.input_mode {
            match key {
                Key::Char(c) => {
                    self.input_text.push(c);
                    assert(self@ =~= old(self)@.chat_step(key).0);
                    None
                },
                Key::Backspace => {
                    self.input_text.pop();
                    assert(self@ =~= old(self)@.chat_step(key).0);
                    None
                },
                Key::Enter => self.submit(),
                Key::Esc => {
                    self.input_mode = false;
                    assert(self@ =~= old(self)@.chat_step(key).0);
                    None
                },
                _ => None,
            }
        } else {
            let letter: Option<char> = match key {
                Key::Char(c) => Some(c),
                _ => None,
            };
            if letter == Some('i') || letter == Some('a') || key == Key::Enter {
                self.input_mode = self.selected_model.is_some();
            } else if letter == Some('j') || key == Key::Down {
                self.chat_cursor = step_down(self.chat_cursor, self.messages.len());
            } else if letter == Some('k') || key == Key::Up {
                self.chat_cursor = step_up(self.chat_cursor);
            } else if letter == Some('G') || key == Key::End {
                self.chat_cursor = step_last(self.chat_cursor, self.messages.len());
            } else if letter == Some('g') {
                self.chat_cursor = 0;
            } else if letter == Some('d') {
                self.delete_message_at(self.chat_cursor);
            }
            assert(self@ =~= old(self)@.chat_step(key).0);
            None
        }
    }

    /// Asks for the deletion of the model at `index`. The index is held
    /// against the list as it is now: where the list has no such model,
    /// nothing happens.
    pub fn delete_model_at(&mut self, index: usize) -> (job: Option<Job>)
        ensures
            final(self)@ == old(self)@.delete_step(index as nat).0,
            job_view(job) == old(self)@.delete_step(index as nat).1,
            index >= old(self)@.models.len() ==> final(self)@ == old(self)@ && job is None,
            old(self)@.wf() ==> final(self)@.wf(),
    {
        if index < self.models.len() {
            let name = self.models[index].name.clone();
            self.status_message = Some(String::from_str("Deleting ").concat(name.as_str()).concat("..."));
            assert(self@ =~= old(self)@.delete_step(index as nat).0);
            Some(Job::Delete { name })
        } else {
            None
        }
    }

    /// The model list's answer to one key.
    pub fn handle_models_input(&mut self, key: Key) -> (job: Option<Job>)
        ensures
            final(self)@ == old(self)@.models_step(key).0,
            job_view(job) == old(self)@.models_step(key).1,
            old(self)@.wf() ==> final(self)@.wf(),
    {
        proof {
            if self@.wf() {
                lemma_view_steps_keep_cursors(self@, key);
            }
        }
        let letter: Option<char> = match key {
            Key::Char(c) => Some(c),
            _ => None,
        };
        let mut job: Option<Job> = None;
        if letter == Some('j') || key == Key::Down {
            self.model_cursor = step_down(self.model_cursor, self.models.len());
        } else if letter == Some('k') || key == Key::Up {
            self.model_cursor = step_up(self.model_cursor);
        } else if letter == Some('G') || key == Key::End {
            self.model_cursor = step_last(self.model_cursor, self.models.len());
        } else if letter == Some('g') {
            self.model_cursor = 0;
        } else if key == Key::Enter {
            if self.model_cursor < self.models.len() {
                self.selected_model = Some(self.models[self.model_cursor].name.clone());
                self.current_tab = Tab::Chat;
            }
        } else if letter == Some('d') {
            job = self.delete_model_at(self.model_cursor);
        } else if letter == Some('r') {
            self.status_message = Some(String::from_str("Refreshing models..."));
            job = Some(Job::Refresh);
        }
        assert(self@ =~= old(self)@.models_step(key).0);
        job
    }

    /// The search view's answer to one key.
    pub fn handle_search_input(&mut self, key: Key) -> (job: Option<Job>)
        ensures
            final(self)@ == old(self)@.search_step(key).0,
            job_view(job) == old(self)@.search_step(key).1,
            old(self)@.wf() ==> final(self)@.wf(),
    {
        proof {
            if self@.wf() {
                lemma_view_steps_keep_cursors(self@, key);
            }
        }
        let letter: Option<char> = match key {
            Key::Char(c) => Some(c),
            _ => None,
        };
        let mut job: Option<Job> = None;
        if letter == Some('j') || key == Key::Down {
            self.search_cursor = step_down(self.search_cursor, self.search_results.len());
        } else if letter == Some('k') || key == Key::Up {
            self.search_cursor = step_up(self.search_cursor);
        } else if letter == Some('G') || key == Key::End {
            self.search_cursor = step_last(self.search_cursor, self.search_results.len());
        } else if letter == Some('g') {
            self.search_cursor = 0;
        } else {
            match key {
                Key::Char(c) => {
                    self.search_query.push(c);
                },
                Key::Backspace => {
                    self.search_query.pop();
                },
                Key::Enter => {
                    if !self.is_searching {
                        self.is_searching = true;
                        if self.search_query.as_str().is_empty() {
                            job = Some(Job::Popular);
                        } else {
                            job = Some(Job::Search { query: self.search_query.clone() });
                        }
                    }
                },
                _ => {},
            }
        }
        assert(self@ =~= old(self)@.search_step(key).0);
        job
    }

    /// The answer to one key: the view on screen handles it, the leaving
    /// key asks to leave, and the cycling key moves on to the next view.
    pub fn handle_key(&mut self, key: Key) -> (outcome: KeyOutcome)
        ensures
            job_view(outcome.job) == old(self)@.view_step(key).1,
            outcome.quit == (key == Key::Esc),
            final(self)@ == old(self)@.key_step(key),
            old(self)@.wf() ==> final(self)@.wf(),
    {
        let job = match self.current_tab {
            Tab::Chat => self.handle_chat_input(key),
            Tab::Models => self.handle_models_input(key),
            Tab::Search => self.handle_search_input(key),
        };
        if key == Key::Tab {
            self.current_tab = tab_after(self.current_tab);
        }
        assert(self@ =~= old(self)@.key_step(key));
        KeyOutcome { job, quit: key == Key::Esc }
    }

    /// Writes a streamed increment: `text`, the whole reply so far,
    /// replaces the content of the last turn where the model wrote it.
    pub fn chat_update(&mut self, text: &str)
        ensures
            final(self)@ == old(self)@.chat_updated(text@),
            old(self)@.wf() ==> final(self)@.wf(),
    {
        let n: usize = self.messages.len();
        if n > 0 && self.messages[n - 1].is_assistant() {
            self.messages.pop();
            self.messages.push(ChatMessage::assistant(String::from_str(text)));
            assert(turns_view(self.messages@) =~= old(self)@.chat_updated(text@).messages);
            assert(self@ =~= old(self)@.chat_updated(text@));
        }
    }

    /// Writes the end of a chat job: the whole reply, or the failure on
    /// the status line. Nothing is in flight afterwards.
    pub fn chat_finished(&mut self, outcome: Result<String, String>)
        ensures
            final(self)@ == old(self)@.chat_finished(
                reply_view(outcome),
            ),
            !final(self)@.is_loading,
            old(self)@.wf() ==> final(self)@.wf(),
    {
        match outcome {
            Ok(text) => {
                self.chat_update(text.as_str());
            },
            Err(error) => {
                self.status_message = Some(String::from_str("Error: ").concat(error.as_str()));
            },
        }
        self.is_loading = false;
        self.input_mode = true;
        assert(self@ =~= old(self)@.chat_finished(
            match outcome {
                Ok(text) => Ok(text@),
                Err(error) => Err(error@),
            },
        ));
    }

    /// Writes the end of a listing: the list as a whole, or the failure on
    /// the status line.
    pub fn refresh_models(&mut self, outcome: Result<Vec<Model>, String>)
        ensures
            final(self)@ == old(self)@.models_listed(
                listing_view(outcome),
            ),
            old(self)@.wf() ==> final(self)@.wf(),
    {
        let ghost seen: Result<Seq<ModelView>, Seq<char>> = listing_view(outcome);
        match outcome {
            Ok(models) => {
                self.model_cursor = clamp(self.model_cursor, models.len());
                self.models = models;
            },
            Err(error) => {
                self.status_message = Some(
                    String::from_str("Failed to connect: ").concat(error.as_str()).concat(
                        ". Make sure Ollama is running.",
                    ),
                );
            },
        }
        assert(self@ =~= old(self)@.models_listed(seen));
    }

    /// Writes the end of a refresh that the user asked for.
    pub fn models_refreshed(&mut self, outcome: Result<Vec<Model>, String>)
        ensures
            final(self)@ == old(self)@.models_refreshed(
                listing_view(outcome),
            ),
            old(self)@.wf() ==> final(self)@.wf(),
    {
        let ghost seen: Result<Seq<ModelView>, Seq<char>> = listing_view(outcome);
        let listed: bool = outcome.is_ok();
        self.refresh_models(outcome);
        if listed {
            self.status_message = Some(String::from_str("Models refreshed"));
        }
        assert(self@ =~= old(self)@.models_refreshed(seen));
    }

    /// Writes the end of a deletion job for the model `name`.
    pub fn model_deleted(&mut self, name: &str, outcome: Result<(), String>)
        ensures
            final(self)@ == old(self)@.model_deleted(
                name@,
                deletion_view(outcome),
            ),
            old(self)@.wf() ==> final(self)@.wf(),
    {
        let ghost seen: Result<(), Seq<char>> = deletion_view(outcome);
        match outcome {
            Ok(_) => {
                let gone = String::from_str(name);
                let kept = keep_other_models(&self.models, &gone);
                self.model_cursor = clamp(self.model_cursor, kept.len());
                self.models = kept;
                let was_selected: bool = match &self.selected_model {
                    Some(selected) => *selected == gone,
                    None => false,
                };
                if was_selected {
                    self.selected_model = None;
                }
                self.status_message = Some(String::from_str("Deleted ").concat(name));
            },
            Err(error) => {
                self.status_message = Some(
                    String::from_str("Delete failed: ").concat(error.as_str()),
                );
            },
        }
        assert(self@ =~= old(self)@.model_deleted(name@, seen));
    }

    /// Writes the end of a search job: the results as a whole, or none and
    /// the failure on the status line. No search is in flight afterwards.
    pub fn search_finished(&mut self, outcome: Result<Vec<OnlineModel>, String>)
        ensures
            final(self)@ == old(self)@.search_finished(
                results_view(outcome),
            ),
            !final(self)@.is_searching,
            old(self)@.wf() ==> final(self)@.wf(),
    {
        let ghost seen: Result<Seq<EntryView>, Seq<char>> = results_view(outcome);
        match outcome {
            Ok(results) => {
                self.search_cursor = clamp(self.search_cursor, results.len());
                self.search_results = results;
            },
            Err(error) => {
                self.search_cursor = 0;
                self.search_results = Vec::new();
                assert(entries_view(self.search_results@) =~= Seq::<EntryView>::empty());
                self.status_message = Some(
                    String::from_str("Search failed: ").concat(error.as_str()),
                );
            },
        }
        self.is_searching = false;
        assert(self@ =~= old(self)@.search_finished(seen));
    }
}

} // verus!
