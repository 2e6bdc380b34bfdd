use vstd::prelude::*;

use crate::content::{Content, ContentView};
use crate::popup::{button_at, lemma_selection_in_range, Popup, PopupButton};
use crate::screen::{next_index, previous_index, Screen, ScreenView};
use crate::text::chars_of;

verus! {

/// A key, as the dispatcher tells keys apart.
#[derive(Debug, Clone, Copy, PartialEq, Eq, Structural)]
pub enum Key {
    Char(char),
    Enter,
    Esc,
    Backspace,
    Left,
    Right,
    Up,
    Down,
    F(u8),
    Other,
}

/// A key press, with whether the control modifier was held.
#[derive(Debug, Clone, Copy, PartialEq, Eq, Structural)]
pub struct KeyPress {
    pub key: Key,
    pub control: bool,
}

/// What the caller has to do outside after a key was handled.
#[derive(Debug, Clone, Copy, PartialEq, Eq, Structural)]
pub enum Command {
    /// Nothing.
    Nothing,
    /// Write the document (see `EventHandler::document`) to the output file.
    Save,
    /// Read the clipboard and hand its text to `EventHandler::paste`.
    Paste,
}

/// Which operations a key may trigger.
#[derive(Debug, Clone, Copy, PartialEq, Eq, Structural)]
pub enum Mode {
    Navigation,
    Editing,
    ExitConfirm,
}

/// Abstract state of the whole editor.
pub struct EditorView {
    pub screen: ScreenView,
    /// Position of the selected exit-dialog button.
    pub popup: nat,
    pub content: ContentView,
    pub should_quit: bool,
    pub output_dir: Seq<char>,
    pub file_name: Seq<char>,
}

impl EditorView {
    pub open spec fn wf(self) -> bool {
        &&& self.screen.wf()
        &&& self.popup < 3
        &&& self.content.wf()
        &&& !(self.content.insert_mode && self.screen.show_popup)
    }

    pub open spec fn mode(self) -> Mode {
        if self.content.insert_mode {
            Mode::Editing
        } else if self.screen.show_popup {
            Mode::ExitConfirm
        } else {
            Mode::Navigation
        }
    }

    pub open spec fn toggled_popup(self) -> EditorView {
        EditorView { screen: ScreenView { show_popup: !self.screen.show_popup, ..self.screen }, ..self }
    }

    pub open spec fn with_content(self, content: ContentView) -> EditorView {
        EditorView { content, ..self }
    }

    /// Navigation: `q` quits, `s` saves, `i` starts editing, Esc asks to
    /// exit, Down and Up move through the topics.
    pub open spec fn navigation_step(self, key: KeyPress) -> (EditorView, Command) {
        match key.key {
            Key::Char(c) => if c == 'q' {
                (EditorView { should_quit: true, ..self }, Command::Nothing)
            } else if c == 's' {
                (self, Command::Save)
            } else if c == 'i' {
                (self.with_content(self.content.toggle_insert()), Command::Nothing)
            } else {
                (self, Command::Nothing)
            },
            Key::Esc => (self.toggled_popup(), Command::Nothing),
            Key::Down => {
                let i = next_index(self.screen.selected);
                (
                    EditorView {
                        screen: self.screen.with_selected(i),
                        content: self.content.select(i as int),
                        ..self
                    },
                    Command::Nothing,
                )
            },
            Key::Up => {
                let i = previous_index(self.screen.selected);
                (
                    EditorView {
                        screen: self.screen.with_selected(i),
                        content: self.content.select(i as int),
                        ..self
                    },
                    Command::Nothing,
                )
            },
            _ => (self, Command::Nothing),
        }
    }

    /// Editing: Ctrl+V asks for the clipboard, characters are typed, Enter
    /// breaks the line, Backspace deletes, the arrows move, F1 and F2 go to
    /// the top and the bottom, Esc commits the buffer and stops editing.
    pub open spec fn content_step(self, key: KeyPress) -> (EditorView, Command) {
        let c = self.content;
        if key.control && key.key == Key::Char('v') {
            (self, Command::Paste)
        } else {
            let next = match key.key {
                Key::Char(ch) => c.insert_char(ch),
                Key::Enter => c.split_line(),
                Key::Esc => match self.screen.selected {
                    Some(i) => c.commit(i as int).toggle_insert(),
                    None => c.toggle_insert(),
                },
                Key::Backspace => c.delete_backward(),
                Key::Left => c.move_left(),
                Key::Right => c.move_right(),
                Key::Up => c.move_up(),
                Key::Down => c.move_down(),
                Key::F(n) => if n == 1 {
                    c.scroll_to_top()
                } else if n == 2 {
                    c.scroll_to_bottom()
                } else {
                    c
                },
                _ => c,
            };
            (self.with_content(next), Command::Nothing)
        }
    }

    /// Exit dialog: Esc closes it, Right and Left move the selection, Enter
    /// carries out the selected action.
    pub open spec fn popup_step(self, key: KeyPress) -> (EditorView, Command) {
        match key.key {
            Key::Esc => (self.toggled_popup(), Command::Nothing),
            Key::Right => (EditorView { popup: (self.popup + 1) % 3, ..self }, Command::Nothing),
            Key::Left => (EditorView { popup: (self.popup + 2) % 3, ..self }, Command::Nothing),
            Key::Enter => match button_at(self.popup as int) {
                PopupButton::Cancel => (self.toggled_popup(), Command::Nothing),
                PopupButton::ExitWithoutSaving => (
                    EditorView { should_quit: true, ..self },
                    Command::Nothing,
                ),
                PopupButton::ExitWithSave => (
                    EditorView { should_quit: true, ..self },
                    Command::Save,
                ),
            },
            _ => (self, Command::Nothing),
        }
    }

    /// A key is handled by the mode the editor is in.
    pub open spec fn step(self, key: KeyPress) -> (EditorView, Command) {
        match self.mode() {
            Mode::Editing => self.content_step(key),
            Mode::ExitConfirm => self.popup_step(key),
            Mode::Navigation => self.navigation_step(key),
        }
    }
}

/// The editor: topic list, exit dialog and editing engine, routing each key
/// to the one the current mode gives it to.
pub struct EventHandler {
    should_quit: bool,
    screen: Screen,
    popup: Popup,
    content: Content,
    output_dir: String,
    file_name: String,
}

impl View for EventHandler {
    type V = EditorView;

    closed spec fn view(&self) -> EditorView {
        EditorView {
            screen: self.screen@,
            popup: self.popup@,
            content: self.content@,
            should_quit: self.should_quit,
            output_dir: self.output_dir@,
            file_name: self.file_name@,
        }
    }
}

impl EventHandler {
    /// The parts are well formed, which the abstract state does not show of
    /// the dialog's buttons.
    pub closed spec fn wf(&self) -> bool {
        self.popup.wf() && self@.wf()
    }

    pub fn new(
        screen: Screen,
        popup: Popup,
        content: Content,
        output_dir: String,
        file_name: String,
    ) -> (r: EventHandler)
        requires
            screen@.wf(),
            popup.wf(),
            content@.wf(),
            !(content@.insert_mode && screen@.show_popup),
        ensures
            r.wf(),
            r@ == (EditorView {
                screen: screen@,
                popup: popup@,
                content: content@,
                should_quit: false,
                output_dir: output_dir@,
                file_name: file_name@,
            }),
    {
        proof {
            lemma_selection_in_range(&popup);
        }
        EventHandler { should_quit: false, screen, popup, content, output_dir, file_name }
    }

    /// Handles a key according to the current mode.
    pub fn handle_key(&mut self, key: KeyPress) -> (r: Command)
        requires
            old(self).wf(),
        ensures
            final(self).wf(),
            (final(self)@, r) == old(self)@.step(key),
    {
        if self.content.enable_insert_mode() {
            self.handle_content_input(key)
        } else if self.screen.show_popup() {
            self.handle_popup_events(key)
        } else {
            self.handle_navigation_input(key)
        }
    }

    pub fn handle_navigation_input(&mut self, key: KeyPress) -> (r: Command)
        requires
            old(self).wf(),
            old(self)@.mode() == Mode::Navigation,
        ensures
            final(self).wf(),
            (final(self)@, r) == old(self)@.navigation_step(key),
    {
        match key.key {
            Key::Char('q') => {
                self.should_quit = true;
            },
            Key::Char('s') => {
                return Command::Save;
            },
            Key::Char('i') => self.content.toggle_insert(),
            Key::Esc => {
                self.screen.toggle_popup();
            },
            Key::Down => self.screen.next(&mut self.content),
            Key::Up => self.screen.previous(&mut self.content),
            _ => {},
        }
        Command::Nothing
    }

    fn handle_content_input(&mut self, key: KeyPress) -> (r: Command)
        requires
            old(self).wf(),
            old(self)@.mode() == Mode::Editing,
        ensures
            final(self).wf(),
            (final(self)@, r) == old(self)@.content_step(key),
    {
        if key.control && key.key == Key::Char('v') {
            return Command::Paste;
        }
        match key.key {
            Key::Char(c) => self.content.insert_char(c),
            Key::Enter => self.content.handle_enter(),
            Key::Esc => {
                if let Some(i) = self.screen.selected() {
                    self.content.save_content_for_current_topic(i);
                }
                self.content.toggle_insert();
            },
            Key::Backspace => self.content.delete_char(),
            Key::Left => self.content.move_cursor_left(),
            Key::Right => self.content.move_cursor_right(),
            Key::Up => self.content.move_cursor_up(),
            Key::Down => self.content.move_cursor_down(),
            Key::F(1) => self.content.scroll_to_top(),
            Key::F(2) => self.content.scroll_to_bottom(),
            _ => {},
        }
        Command::Nothing
    }

    fn handle_popup_events(&mut self, key: KeyPress) -> (r: Command)
        requires
            old(self).wf(),
            old(self)@.mode() == Mode::ExitConfirm,
        ensures
            final(self).wf(),
            (final(self)@, r) == old(self)@.popup_step(key),
    {
        match key.key {
            Key::Esc => {
                self.screen.toggle_popup();
            },
            Key::Right => {
                self.popup.next_button();
            },
            Key::Left => {
                self.popup.previous_button();
            },
            Key::Enter => match self.popup.select_button() {
                PopupButton::Cancel => {
                    self.screen.toggle_popup();
                },
                PopupButton::ExitWithoutSaving => {
                    self.should_quit = true;
                },
                PopupButton::ExitWithSave => {
                    self.should_quit = true;
                    return Command::Save;
                },
            },
            _ => {},
        }
        Command::Nothing
    }

    /// Types pasted text into the buffer as if it were typed, a line break
    /// breaking the line.
    pub fn paste(&mut self, text: &str)
        requires
            old(self).wf(),
        ensures
            final(self).wf(),
            final(self)@ == old(self)@.with_content(old(self)@.content.typed(text@)),
    {
        let chars = chars_of(text);
        let mut i: usize = 0;
        while i < chars.len()
            invariant
                self.wf(),
                i <= chars@.len(),
                chars@ == text@,
                self@ == old(self)@.with_content(
                    old(self)@.content.typed(chars@.subrange(0, i as int)),
                ),
            decreases chars@.len() - i,
        {
            let c = chars[i];
            if c == '\n' {
                self.content.handle_enter();
            } else {
                self.content.insert_char(c);
            }
            i += 1;
            proof {
                assert(chars@.subrange(0, i as int).drop_last() =~= chars@.subrange(0, i - 1));
            }
        }
        proof {
            assert(chars@.subrange(0, i as int) =~= chars@);
        }
    }

    /// Brings the state up to date before a frame is drawn, the content area
    /// being `area_height` rows high.
    pub fn prepare_frame(&mut self, area_height: u16)
        requires
            old(self).wf(),
        ensures
            final(self).wf(),
            final(self)@ == old(self)@.with_content(
                old(self)@.content.prepared(
                    area_height as nat,
                    old(self)@.screen.selected,
                ),
            ),
    {
        let selected = self.screen.selected();
        self.content.prepare_render(area_height, selected);
    }

    /// The document that saving writes.
    pub fn document(&self) -> (r: String)
        requires
            self.wf(),
        ensures
            r@ == crate::content::document_text(self@.content.saved),
    {
        self.content.document()
    }

    pub fn mode(&self) -> (r: Mode)
        ensures
            r == self@.mode(),
    {
        if self.content.enable_insert_mode() {
            Mode::Editing
        } else if self.screen.show_popup() {
            Mode::ExitConfirm
        } else {
            Mode::Navigation
        }
    }

    /// Whether the program should end.
    pub fn should_quit(&self) -> (r: bool)
        ensures
            r == self@.should_quit,
    {
        self.should_quit
    }

    pub fn screen(&self) -> (r: &Screen)
        ensures
            r@ == self@.screen,
    {
        &self.screen
    }

    pub fn popup(&self) -> (r: &Popup)
        requires
            self.wf(),
        ensures
            r@ == self@.popup,
            r.wf(),
    {
        &self.popup
    }

    pub fn content(&self) -> (r: &Content)
        ensures
            r@ == self@.content,
    {
        &self.content
    }

    /// Directory the document is saved in.
    pub fn output_dir(&self) -> (r: &str)
        ensures
            r@ == self@.output_dir,
    {
        self.output_dir.as_str()
    }

    /// Name of the file the document is saved as.
    pub fn file_name(&self) -> (r: &str)
        ensures
            r@ == self@.file_name,
    {
        self.file_name.as_str()
    }
}

} // verus!
