//! The decisions of the render loop.
//!
//! The loop itself waits for events and draws, which is not done here. After
//! each event it asks [`Engine::handle`] what to do, and where that is a
//! redraw, it asks [`Engine::window_size`] where to draw and reports the
//! finished frame with [`Engine::frame_drawn`].
use tui::layout::Rect;
use core::time::Duration;
use vstd::prelude::*;

verus! {

/// The rectangle of `tui` that a frame is drawn into. Nothing here looks
/// inside one: rectangles are handed on as they come.
#[verifier::external_type_specification]
#[verifier::external_body]
pub struct ExRect(tui::layout::Rect);

/// A line of the information pane.
#[derive(Debug)]
pub enum Line {
    /// Set a title with the given text.
    Title(String),
    /// Set a line of text with the given content.
    Text(String),
}

/// A key as the terminal reports it.
#[derive(Clone, Copy, Debug, PartialEq, Eq)]
pub enum Key {
    /// Backspace.
    Backspace,
    /// Left arrow.
    Left,
    /// Right arrow.
    Right,
    /// Up arrow.
    Up,
    /// Down arrow.
    Down,
    /// Home key.
    Home,
    /// End key.
    End,
    /// Page Up key.
    PageUp,
    /// Page Down key.
    PageDown,
    /// Backward Tab key.
    BackTab,
    /// Delete key.
    Delete,
    /// Insert key.
    Insert,
    /// Function key of the given number.
    F(u8),
    /// Normal character.
    Char(char),
    /// Alt modified character.
    Alt(char),
    /// Ctrl modified character.
    Ctrl(char),
    /// Null byte.
    Null,
    /// Esc key.
    Esc,
}

/// An event that the render loop reacts to.
#[derive(Debug)]
pub enum Event {
    /// Draw a frame.
    Tick,
    /// A key was pressed, by the user or on the user's behalf.
    Input(Key),
    /// Change the size of the window to the given rectangle.
    SetWindowSize(Rect),
    /// Set the title of the dashboard.
    SetTitle(String),
    /// Replace the lines of the information pane.
    SetInformation(Vec<Line>),
}

/// What the render loop does after an event.
#[derive(Clone, Copy, Debug, PartialEq, Eq)]
pub enum Action {
    /// Leave the loop.
    Quit,
    /// Wait for the next event without drawing.
    Skip,
    /// Draw a frame.
    Redraw,
}

/// Everything that decides how a frame looks, besides the progress itself.
#[derive(Debug)]
pub struct State {
    /// The title of the dashboard.
    pub title: String,
    /// How far the tasks are scrolled down.
    pub task_offset: u16,
    /// How far the messages are scrolled down.
    pub message_offset: u16,
    /// Whether the message pane is hidden.
    pub hide_messages: bool,
    /// Whether the message pane takes the whole window.
    pub messages_fullscreen: bool,
    /// The window size set by the latest `SetWindowSize` event.
    pub user_provided_window_size: Option<Rect>,
    /// The time between two frames.
    pub duration_per_frame: Duration,
    /// The lines of the information pane.
    pub information: Vec<Line>,
    /// Whether the information pane is hidden.
    pub hide_info: bool,
    /// Whether the information pane takes the whole window.
    pub maximize_info: bool,
    /// The width that the latest frame wanted for the column of task names.
    pub last_tree_column_width: Option<u16>,
    /// The width that coming frames give the column of task names.
    pub next_tree_column_width: Option<u16>,
}

/// Whether `key` ends the loop: Esc, `q`, Ctrl-C and Ctrl-`[` do.
pub open spec fn is_quit_key(key: Key) -> bool {
    key == Key::Esc || key == Key::Char('q') || key == Key::Ctrl('c') || key == Key::Ctrl('[')
}

/// Whether `key` is bound to a change of the state.
pub open spec fn is_state_key(key: Key) -> bool {
    match key {
        Key::Char(c) => {
            ||| c == '`'
            ||| c == '~'
            ||| c == 'J'
            ||| c == 'D'
            ||| c == 'j'
            ||| c == 'd'
            ||| c == 'K'
            ||| c == 'U'
            ||| c == 'k'
            ||| c == 'u'
            ||| c == '['
            ||| c == '{'
        },
        _ => false,
    }
}

/// What the loop does after `event`: it quits on a quit key, skips the frame
/// on a key that is bound to nothing, and redraws after everything else.
pub open spec fn action_after(event: Event) -> Action {
    match event {
        Event::Input(key) => if is_quit_key(key) {
            Action::Quit
        } else if is_state_key(key) {
            Action::Redraw
        } else {
            Action::Skip
        },
        _ => Action::Redraw,
    }
}

/// The lines that `key` scrolls back: 1 for `K` and `k`, 10 for `U` and
/// `u`, none for any other key.
pub open spec fn key_lines_back(key: Key) -> nat {
    if key == Key::Char('K') || key == Key::Char('k') {
        1
    } else if key == Key::Char('U') || key == Key::Char('u') {
        10
    } else {
        0
    }
}

/// The lines that the keys of `keys` scroll back, all together.
pub open spec fn lines_back(keys: Seq<Key>) -> nat
    decreases keys.len(),
{
    if keys.len() == 0 {
        0
    } else {
        key_lines_back(keys[0]) + lines_back(keys.drop_first())
    }
}

impl State {
    /// The state of a dashboard that has not seen an event yet.
    pub fn new(title: String, duration_per_frame: Duration) -> (state: State)
        ensures
            state.title == title,
            state.duration_per_frame == duration_per_frame,
            state.task_offset == 0,
            state.message_offset == 0,
            !state.hide_messages,
            !state.messages_fullscreen,
            !state.hide_info,
            !state.maximize_info,
            state.user_provided_window_size is None,
            state.last_tree_column_width is None,
            state.next_tree_column_width is None,
            state.information@ == Seq::<Line>::empty(),
    {
        State {
            title,
            task_offset: 0,
            message_offset: 0,
            hide_messages: false,
            messages_fullscreen: false,
            user_provided_window_size: None,
            duration_per_frame,
            information: Vec::new(),
            hide_info: false,
            maximize_info: false,
            last_tree_column_width: None,
            next_tree_column_width: None,
        }
    }

    /// The state after `key` was pressed. Each bound key changes one field:
    /// a toggle flips, an offset moves by 1 or 10 and stops at either end of
    /// its range. Every other key changes nothing.
    pub open spec fn after_key(self, key: Key) -> State {
        match key {
            Key::Char(c) => if c == '`' {
                State { hide_messages: !self.hide_messages, ..self }
            } else if c == '~' {
                State { messages_fullscreen: !self.messages_fullscreen, ..self }
            } else if c == 'J' {
                State { message_offset: self.message_offset.saturating_add(1), ..self }
            } else if c == 'D' {
                State { message_offset: self.message_offset.saturating_add(10), ..self }
            } else if c == 'j' {
                State { task_offset: self.task_offset.saturating_add(1), ..self }
            } else if c == 'd' {
                State { task_offset: self.task_offset.saturating_add(10), ..self }
            } else if c == 'K' {
                State { message_offset: self.message_offset.saturating_sub(1), ..self }
            } else if c == 'U' {
                State { message_offset: self.message_offset.saturating_sub(10), ..self }
            } else if c == 'k' {
                State { task_offset: self.task_offset.saturating_sub(1), ..self }
            } else if c == 'u' {
                State { task_offset: self.task_offset.saturating_sub(10), ..self }
            } else if c == '[' {
                State { hide_info: !self.hide_info, ..self }
            } else if c == '{' {
                State { maximize_info: !self.maximize_info, ..self }
            } else {
                self
            },
            _ => self,
        }
    }

    /// The state after `event`. A key changes what it is bound to; the other
    /// events replace the field they name as a whole; a tick changes
    /// nothing.
    pub open spec fn after(self, event: Event) -> State {
        match event {
            Event::Tick => self,
            Event::Input(key) => self.after_key(key),
            Event::SetWindowSize(bound) => State { user_provided_window_size: Some(bound), ..self },
            Event::SetTitle(title) => State { title, ..self },
            Event::SetInformation(information) => State { information, ..self },
        }
    }

    /// The state after the keys of `keys` were pressed one after the other.
    pub open spec fn after_keys(self, keys: Seq<Key>) -> State
        decreases keys.len(),
    {
        if keys.len() == 0 {
            self
        } else {
            self.after_key(keys[0]).after_keys(keys.drop_first())
        }
    }

    /// Scrolling the messages back stops at the top. After any run of the
    /// keys `K` and `U` the offset is what is left of it after all their
    /// lines, and 0 where they ask for more than there is; nothing else has
    /// changed.
    pub proof fn lemma_messages_scroll_back(self, keys: Seq<Key>)
        requires
            forall|i: int|
                0 <= i < keys.len() ==> keys[i] == Key::Char('K') || keys[i] == Key::Char('U'),
        ensures
            self.after_keys(keys) == (State {
                message_offset: self.after_keys(keys).message_offset,
                ..self
            }),
            self.after_keys(keys).message_offset == if self.message_offset >= lines_back(keys) {
                self.message_offset - lines_back(keys)
            } else {
                0
            },
        decreases keys.len(),
    {
        if keys.len() > 0 {
            self.after_key(keys[0]).lemma_messages_scroll_back(keys.drop_first());
        }
    }

    /// Scrolling the tasks back stops at the top. After any run of the keys
    /// `k` and `u` the offset is what is left of it after all their lines,
    /// and 0 where they ask for more than there is; nothing else has
    /// changed.
    pub proof fn lemma_tasks_scroll_back(self, keys: Seq<Key>)
        requires
            forall|i: int|
                0 <= i < keys.len() ==> keys[i] == Key::Char('k') || keys[i] == Key::Char('u'),
        ensures
            self.after_keys(keys) == (State {
                task_offset: self.after_keys(keys).task_offset,
                ..self
            }),
            self.after_keys(keys).task_offset == if self.task_offset >= lines_back(keys) {
                self.task_offset - lines_back(keys)
            } else {
                0
            },
        decreases keys.len(),
    {
        if keys.len() > 0 {
            self.after_key(keys[0]).lemma_tasks_scroll_back(keys.drop_first());
        }
    }

    /// Changes the state as `key` asks and tells what the loop does next.
    pub fn press(&mut self, key: Key) -> (action: Action)
        ensures
            *final(self) == old(self).after_key(key),
            action == action_after(Event::Input(key)),
            action != Action::Redraw ==> *final(self) == *old(self),
    {
        match key {
            Key::Esc => Action::Quit,
            Key::Ctrl(c) => {
                if c == 'c' || c == '[' {
                    Action::Quit
                } else {
                    Action::Skip
                }
            },
            Key::Char(c) => {
                if c == 'q' {
                    return Action::Quit;
                }
                if c == '`' {
                    self.hide_messages = !self.hide_messages;
                } else if c == '~' {
                    self.messages_fullscreen = !self.messages_fullscreen;
                } else if c == 'J' {
                    self.message_offset = self.message_offset.saturating_add(1);
                } else if c == 'D' {
                    self.message_offset = self.message_offset.saturating_add(10);
                } else if c == 'j' {
                    self.task_offset = self.task_offset.saturating_add(1);
                } else if c == 'd' {
                    self.task_offset = self.task_offset.saturating_add(10);
                } else if c == 'K' {
                    self.message_offset = self.message_offset.saturating_sub(1);
                } else if c == 'U' {
                    self.message_offset = self.message_offset.saturating_sub(10);
                } else if c == 'k' {
                    self.task_offset = self.task_offset.saturating_sub(1);
                } else if c == 'u' {
                    self.task_offset = self.task_offset.saturating_sub(10);
                } else if c == '[' {
                    self.hide_info = !self.hide_info;
                } else if c == '{' {
                    self.maximize_info = !self.maximize_info;
                } else {
                    return Action::Skip;
                }
                Action::Redraw
            },
            _ => Action::Skip,
        }
    }

    /// Changes the state as `event` asks and tells what the loop does next.
    /// A quit key ends the loop whatever the state is, and only a quit key
    /// does; only a key that is bound to nothing skips the frame.
    pub fn apply(&mut self, event: Event) -> (action: Action)
        ensures
            *final(self) == old(self).after(event),
            action == action_after(event),
            action == Action::Quit <==> (event matches Event::Input(key) && is_quit_key(key)),
            action != Action::Redraw ==> *final(self) == *old(self),
    {
        match event {
            Event::Tick => Action::Redraw,
            Event::Input(key) => self.press(key),
            Event::SetWindowSize(bound) => {
                self.user_provided_window_size = Some(bound);
                Action::Redraw
            },
            Event::SetTitle(title) => {
                self.title = title;
                Action::Redraw
            },
            Event::SetInformation(information) => {
                self.information = information;
                Action::Redraw
            },
        }
    }
}

/// Counts finished frames in rounds of a fixed length.
#[derive(Clone, Copy, Debug)]
pub struct FrameCounter {
    every: usize,
    drawn: usize,
}

impl FrameCounter {
    #[verifier::type_invariant]
    spec fn within_round(self) -> bool {
        self.drawn < self.every
    }

    /// The length of a round in frames.
    pub closed spec fn spec_interval(&self) -> usize {
        self.every
    }

    /// The frames counted in the current round.
    pub closed spec fn spec_drawn(&self) -> usize {
        self.drawn
    }

    /// A counter at the start of a round of `every` frames. A round is at
    /// least one frame long: where no length is given it is one frame, and
    /// a length of 0 counts as 1.
    pub fn new(every: Option<usize>) -> (counter: FrameCounter)
        ensures
            counter.drawn() == 0,
            counter.interval() == match every {
                Some(every) => if every == 0 {
                    1
                } else {
                    every
                },
                None => 1,
            },
    {
        let every: usize = match every {
            Some(every) => if every == 0 {
                1
            } else {
                every
            },
            None => 1,
        };
        FrameCounter { every, drawn: 0 }
    }

    /// The length of a round in frames, which is at least 1.
    #[verifier::when_used_as_spec(spec_interval)]
    pub fn interval(&self) -> (every: usize)
        ensures
            every == self.spec_interval(),
            every >= 1,
    {
        proof {
            use_type_invariant(self);
        }
        self.every
    }

    /// The frames counted in the current round, which stay below its length.
    #[verifier::when_used_as_spec(spec_drawn)]
    pub fn drawn(&self) -> (drawn: usize)
        ensures
            drawn == self.spec_drawn(),
            drawn < self.interval(),
    {
        proof {
            use_type_invariant(self);
        }
        self.drawn
    }

    /// Counts one frame and tells whether it completed a round, which
    /// starts the next one.
    pub fn count(&mut self) -> (completed: bool)
        ensures
            completed <==> (old(self).drawn() + 1) % (old(self).interval() as int) == 0,
            final(self).drawn() == (old(self).drawn() + 1) % (old(self).interval() as int),
            final(self).interval() == old(self).interval(),
            old(self).drawn() < old(self).interval(),
    {
        proof {
            use_type_invariant(&*self);
        }
        let drawn: usize = self.drawn + 1;
        if drawn == self.every {
            assert(drawn as int % (drawn as int) == 0) by (nonlinear_arith)
                requires
                    drawn > 0,
            ;
            self.drawn = 0;
            true
        } else {
            assert(drawn as int % (self.every as int) == drawn) by (nonlinear_arith)
                requires
                    0 < drawn < self.every,
            ;
            self.drawn = drawn;
            false
        }
    }
}

/// The state of the dashboard together with what the render loop was
/// configured with.
#[derive(Debug)]
pub struct Engine {
    /// What the frames show.
    pub state: State,
    /// The window size that the loop was configured with, if any.
    pub window_size: Option<Rect>,
    /// The frames drawn since the width of the column of task names was
    /// last taken over from a frame. A round of the counter is the number of
    /// frames between two such moments.
    pub frames: FrameCounter,
}

impl Engine {
    /// The rectangle that the next frame is drawn into: the size set by the
    /// latest `SetWindowSize` event, else the configured size, else the size
    /// of the terminal.
    pub open spec fn window_size_for(&self, terminal: Rect) -> Rect {
        match self.state.user_provided_window_size {
            Some(size) => size,
            None => match self.window_size {
                Some(size) => size,
                None => terminal,
            },
        }
    }

    /// An engine for a dashboard that has not seen an event yet. The width
    /// of the column of task names is taken over from every
    /// `recompute_column_width_every_nth_frame`-th frame: from every frame
    /// where no number is given, and for 0 as for 1.
    pub fn new(
        title: String,
        duration_per_frame: Duration,
        window_size: Option<Rect>,
        recompute_column_width_every_nth_frame: Option<usize>,
    ) -> (engine: Engine)
        ensures
            engine.window_size == window_size,
            engine.frames.drawn() == 0,
            engine.frames.interval() == match recompute_column_width_every_nth_frame {
                Some(every) => if every == 0 {
                    1
                } else {
                    every
                },
                None => 1,
            },
            engine.state.title == title,
            engine.state.duration_per_frame == duration_per_frame,
            engine.state.task_offset == 0,
            engine.state.message_offset == 0,
            !engine.state.hide_messages,
            !engine.state.messages_fullscreen,
            !engine.state.hide_info,
            !engine.state.maximize_info,
            engine.state.user_provided_window_size is None,
            engine.state.last_tree_column_width is None,
            engine.state.next_tree_column_width is None,
            engine.state.information@ == Seq::<Line>::empty(),
    {
        Engine {
            state: State::new(title, duration_per_frame),
            window_size,
            frames: FrameCounter::new(recompute_column_width_every_nth_frame),
        }
    }

    /// Changes the state as `event` asks and tells what the loop does next.
    /// A quit key ends the loop at once, whatever the state is and whatever
    /// else is waiting, and only a quit key does; only a key that is bound
    /// to nothing skips the frame.
    pub fn handle(&mut self, event: Event) -> (action: Action)
        ensures
            final(self).state == old(self).state.after(event),
            final(self).window_size == old(self).window_size,
            final(self).frames == old(self).frames,
            action == action_after(event),
            action == Action::Quit <==> (event matches Event::Input(key) && is_quit_key(key)),
            action != Action::Redraw ==> *final(self) == *old(self),
    {
        self.state.apply(event)
    }

    /// The rectangle that the next frame is drawn into, where the terminal
    /// reports `terminal` as its size.
    pub fn window_size(&self, terminal: Rect) -> (size: Rect)
        ensures
            size == self.window_size_for(terminal),
    {
        match self.state.user_provided_window_size {
            Some(size) => size,
            None => match self.window_size {
                Some(size) => size,
                None => terminal,
            },
        }
    }

    /// Counts a finished frame. The frame that completes a round of the
    /// counter stores the width that it wanted for the column of task names
    /// as the width of the frames to come; after every other frame the width
    /// stays. The result tells whether the width was stored.
    pub fn frame_drawn(&mut self) -> (stored: bool)
        ensures
            stored <==> (old(self).frames.drawn() + 1) % (old(self).frames.interval() as int) == 0,
            final(self).frames.drawn() == (old(self).frames.drawn() + 1) % (old(
                self,
            ).frames.interval() as int),
            final(self).frames.interval() == old(self).frames.interval(),
            final(self).window_size == old(self).window_size,
            final(self).state == (State {
                next_tree_column_width: if stored {
                    old(self).state.last_tree_column_width
                } else {
                    old(self).state.next_tree_column_width
                },
                ..old(self).state
            }),
    {
        let stored = self.frames.count();
        if stored {
            self.state.next_tree_column_width = self.state.last_tree_column_width;
        }
        stored
    }
}

} // verus!
