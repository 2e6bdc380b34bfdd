use vstd::prelude::*;

use crate::text::{append_chars, chars_of, push_char, string_of};
use vstd::string::*;

verus! {

/// The fixed documentation sections, in the order in which they are listed,
/// cycled through and written out.
#[derive(Debug, Clone, Copy, PartialEq, Eq, Structural, Hash)]
pub enum ContentListItem {
    ProjectName,
    Tutorials,
    Guides,
    Explanation,
    Reference,
}

/// Number of topics.
pub const TOPIC_COUNT: usize = 5;

/// The topic at a position of the fixed order, if there is one.
pub open spec fn topic_at(index: int) -> Option<ContentListItem> {
    if index == 0 {
        Some(ContentListItem::ProjectName)
    } else if index == 1 {
        Some(ContentListItem::Tutorials)
    } else if index == 2 {
        Some(ContentListItem::Guides)
    } else if index == 3 {
        Some(ContentListItem::Explanation)
    } else if index == 4 {
        Some(ContentListItem::Reference)
    } else {
        None
    }
}

/// The heading under which a topic's text is written out.
pub open spec fn topic_label(t: ContentListItem) -> Seq<char> {
    match t {
        ContentListItem::ProjectName => "ProjectName"@,
        ContentListItem::Tutorials => "Tutorials"@,
        ContentListItem::Guides => "Guides"@,
        ContentListItem::Explanation => "Explanation"@,
        ContentListItem::Reference => "Reference"@,
    }
}

/// Name of the template file that holds a topic's seed text.
pub open spec fn placeholder_file_name(t: ContentListItem) -> Seq<char> {
    match t {
        ContentListItem::ProjectName => "project_name.md"@,
        ContentListItem::Tutorials => "tutorials.md"@,
        ContentListItem::Guides => "guides.md"@,
        ContentListItem::Explanation => "explanation.md"@,
        ContentListItem::Reference => "reference.md"@,
    }
}

impl ContentListItem {
    /// The topic at a position of the fixed order; `None` past the last one.
    pub fn from_index(index: usize) -> (r: Option<ContentListItem>)
        ensures
            r == topic_at(index as int),
    {
        match index {
            0 => Some(ContentListItem::ProjectName),
            1 => Some(ContentListItem::Tutorials),
            2 => Some(ContentListItem::Guides),
            3 => Some(ContentListItem::Explanation),
            4 => Some(ContentListItem::Reference),
            _ => None,
        }
    }

    /// The heading under which the topic is written out.
    pub fn label(&self) -> (r: &'static str)
        ensures
            r@ == topic_label(*self),
    {
        match self {
            ContentListItem::ProjectName => "ProjectName",
            ContentListItem::Tutorials => "Tutorials",
            ContentListItem::Guides => "Guides",
            ContentListItem::Explanation => "Explanation",
            ContentListItem::Reference => "Reference",
        }
    }

    /// Name of the template file that seeds a topic never edited.
    pub fn placeholder_file(&self) -> (r: &'static str)
        ensures
            r@ == placeholder_file_name(*self),
    {
        match self {
            ContentListItem::ProjectName => "project_name.md",
            ContentListItem::Tutorials => "tutorials.md",
            ContentListItem::Guides => "guides.md",
            ContentListItem::Explanation => "explanation.md",
            ContentListItem::Reference => "reference.md",
        }
    }
}

/// The lines of a buffer, each as its characters.
pub open spec fn lines_of(v: Seq<Vec<char>>) -> Seq<Seq<char>> {
    v.map_values(|l: Vec<char>| l@)
}

/// What is stored for one topic: its committed lines, if it was ever committed.
pub open spec fn stored_of(o: Option<Vec<Vec<char>>>) -> Option<Seq<Seq<char>>> {
    match o {
        Some(v) => Some(lines_of(v@)),
        None => None,
    }
}

/// Lines written one after another, each ended by a line break.
pub open spec fn lines_text(lines: Seq<Seq<char>>) -> Seq<char>
    decreases lines.len(),
{
    if lines.len() == 0 {
        Seq::empty()
    } else {
        lines_text(lines.drop_last()) + lines.last() + seq!['\n']
    }
}

/// The document's title block, written when the project name was committed:
/// its first line (or a stock title) as a top-level heading, and a note.
pub open spec fn title_text(project: Option<Seq<Seq<char>>>) -> Seq<char> {
    match project {
        Some(lines) => "# "@ + (if lines.len() > 0 {
            lines[0]
        } else {
            "Documentation"@
        }) + seq!['\n'] + "\nThis documentation follows the Diátaxis framework.\n"@
            + "Learn more at https://diataxis.fr/\n"@ + seq!['\n'],
        None => Seq::empty(),
    }
}

/// The section of the topic at `index`, when it was committed: a labelled
/// heading, its lines, and a blank line.
pub open spec fn section_text(saved: Seq<Option<Seq<Seq<char>>>>, index: int) -> Seq<char> {
    match saved[index] {
        Some(lines) => "## "@ + topic_label(topic_at(index)->0) + seq!['\n'] + lines_text(lines)
            + seq!['\n'],
        None => Seq::empty(),
    }
}

/// The sections of the topics after the project name and before `end`, in order.
pub open spec fn sections_text(saved: Seq<Option<Seq<Seq<char>>>>, end: int) -> Seq<char>
    decreases end,
{
    if end <= 1 {
        Seq::empty()
    } else {
        sections_text(saved, end - 1) + section_text(saved, end - 1)
    }
}

/// The saved document: the title block, then a section per committed topic
/// in topic order.
pub open spec fn document_text(saved: Seq<Option<Seq<Seq<char>>>>) -> Seq<char> {
    title_text(saved[0]) + sections_text(saved, TOPIC_COUNT as int)
}

/// Abstract state of the editing engine: the active buffer with its cursor and
/// viewport, the mode flag, and the per-topic store.
pub struct ContentView {
    /// Lines of the active buffer.
    pub lines: Seq<Seq<char>>,
    /// Cursor line.
    pub row: nat,
    /// Cursor position within the line, in characters.
    pub col: nat,
    /// First visible line.
    pub scroll: nat,
    /// Number of lines the viewport shows.
    pub height: nat,
    /// Whether the buffer is being edited.
    pub insert_mode: bool,
    /// Committed lines of each topic, by topic position.
    pub saved: Seq<Option<Seq<Seq<char>>>>,
    /// Seed text of each topic, by topic position.
    pub placeholders: Seq<Seq<Seq<char>>>,
}

impl ContentView {
    /// The cursor is on a line and within it, or at the line after the last
    /// one (where the next insertion appends a line) at column 0.
    pub open spec fn cursor_valid(self) -> bool {
        &&& self.row <= self.lines.len()
        &&& self.row < self.lines.len() ==> self.col <= self.lines[self.row as int].len()
        &&& self.row == self.lines.len() ==> self.col == 0
    }

    /// Largest first-visible-line that still fills the viewport.
    pub open spec fn max_scroll(self) -> nat {
        if self.lines.len() >= self.height {
            (self.lines.len() - self.height) as nat
        } else {
            0
        }
    }

    /// The cursor line, when it is a real line, is on screen.
    pub open spec fn cursor_visible(self) -> bool {
        self.scroll <= self.row < self.scroll + self.height
    }

    pub open spec fn viewport_valid(self) -> bool {
        &&& self.scroll <= self.max_scroll()
        &&& (self.height > 0 && self.row < self.lines.len()) ==> self.cursor_visible()
    }

    pub open spec fn wf(self) -> bool {
        &&& self.saved.len() == TOPIC_COUNT
        &&& self.placeholders.len() == TOPIC_COUNT
        &&& self.cursor_valid()
        &&& self.viewport_valid()
    }

    /// Brings the cursor line into view, then keeps the view within the text.
    pub open spec fn adjusted(self) -> ContentView {
        let s1: int = if self.row >= self.scroll + self.height {
            self.row - self.height + 1
        } else if self.row < self.scroll {
            self.row as int
        } else {
            self.scroll as int
        };
        let s2: int = if s1 > self.max_scroll() {
            self.max_scroll() as int
        } else {
            s1
        };
        ContentView { scroll: s2 as nat, ..self }
    }

    pub open spec fn insert_char(self, c: char) -> ContentView {
        let lines = if self.row < self.lines.len() {
            self.lines.update(self.row as int, self.lines[self.row as int].insert(self.col as int, c))
        } else {
            self.lines.push(seq![c])
        };
        ContentView { lines, col: self.col + 1, ..self }.adjusted()
    }

    /// Breaks the cursor line in two at the cursor, the cursor going to the
    /// start of the second part; past the last line, appends an empty line.
    pub open spec fn split_line(self) -> ContentView {
        if self.row >= self.lines.len() {
            ContentView { lines: self.lines.push(Seq::empty()), row: self.row + 1, col: 0, ..self }.adjusted()
        } else {
            let line = self.lines[self.row as int];
            let before = line.subrange(0, self.col as int);
            let after = line.subrange(self.col as int, line.len() as int);
            ContentView {
                lines: self.lines.update(self.row as int, before).insert((self.row + 1) as int, after),
                row: self.row + 1,
                col: 0,
                ..self
            }.adjusted()
        }
    }

    /// Removes the character before the cursor; at the start of a line other
    /// than the first, joins the line to the one above.
    pub open spec fn delete_backward(self) -> ContentView {
        if self.row < self.lines.len() && self.col > 0 {
            ContentView {
                lines: self.lines.update(
                    self.row as int,
                    self.lines[self.row as int].remove(self.col - 1),
                ),
                col: (self.col - 1) as nat,
                ..self
            }.adjusted()
        } else if self.row < self.lines.len() && self.row > 0 {
            let prev = self.lines[self.row - 1];
            ContentView {
                lines: self.lines.update(self.row - 1, prev + self.lines[self.row as int]).remove(
                    self.row as int,
                ),
                row: (self.row - 1) as nat,
                col: prev.len(),
                ..self
            }.adjusted()
        } else {
            self.adjusted()
        }
    }

    pub open spec fn move_left(self) -> ContentView {
        if self.col > 0 {
            ContentView { col: (self.col - 1) as nat, ..self }.adjusted()
        } else if self.row > 0 {
            ContentView {
                row: (self.row - 1) as nat,
                col: self.lines[self.row - 1].len(),
                ..self
            }.adjusted()
        } else {
            self.adjusted()
        }
    }

    pub open spec fn move_right(self) -> ContentView {
        if self.row < self.lines.len() && self.col < self.lines[self.row as int].len() {
            ContentView { col: self.col + 1, ..self }.adjusted()
        } else if self.row < self.lines.len() && self.row + 1 < self.lines.len() {
            ContentView { row: self.row + 1, col: 0, ..self }.adjusted()
        } else {
            self.adjusted()
        }
    }

    /// The column kept when the cursor moves to another line.
    pub open spec fn clamped_col(self, target: int) -> nat {
        if self.col <= self.lines[target].len() {
            self.col
        } else {
            self.lines[target].len()
        }
    }

    pub open spec fn move_up(self) -> ContentView {
        if self.row > 0 {
            ContentView {
                row: (self.row - 1) as nat,
                col: self.clamped_col(self.row - 1),
                ..self
            }.adjusted()
        } else {
            self.adjusted()
        }
    }

    pub open spec fn move_down(self) -> ContentView {
        if self.row + 1 < self.lines.len() {
            ContentView { row: self.row + 1, col: self.clamped_col((self.row + 1) as int), ..self }.adjusted()
        } else {
            self.adjusted()
        }
    }

    pub open spec fn scroll_to_top(self) -> ContentView {
        ContentView { scroll: 0, row: 0, col: 0, ..self }
    }

    pub open spec fn scroll_to_bottom(self) -> ContentView {
        let n = self.lines.len();
        ContentView {
            scroll: self.max_scroll(),
            row: if n > 0 { (n - 1) as nat } else { 0 },
            col: if n > 0 { self.lines[n - 1].len() } else { 0 },
            ..self
        }
    }

    /// Enters or leaves editing, with the cursor and the view at the top.
    pub open spec fn toggle_insert(self) -> ContentView {
        ContentView { insert_mode: !self.insert_mode, row: 0, col: 0, scroll: 0, ..self }
    }

    /// The text that selecting a topic puts in the buffer: what was committed
    /// for it, else its seed text unless the buffer is being edited.
    pub open spec fn loaded(self, index: int) -> Option<Seq<Seq<char>>> {
        if 0 <= index < TOPIC_COUNT {
            match self.saved[index] {
                Some(t) => Some(t),
                None => if !self.insert_mode {
                    Some(self.placeholders[index])
                } else {
                    None
                },
            }
        } else {
            None
        }
    }

    pub open spec fn select(self, index: int) -> ContentView {
        match self.loaded(index) {
            Some(t) => ContentView { lines: t, row: 0, col: 0, scroll: 0, ..self },
            None => self,
        }
    }

    /// Keeps the buffer's lines as the topic's text.
    pub open spec fn commit(self, index: int) -> ContentView {
        if 0 <= index < TOPIC_COUNT {
            ContentView { saved: self.saved.update(index, Some(self.lines)), ..self }
        } else {
            self
        }
    }

    /// The state before a frame is drawn in an area of the given height
    /// (borders take two rows) with the given topic selected.
    pub open spec fn prepared(self, area_height: nat, selected: Option<nat>) -> ContentView {
        let sized = ContentView {
            height: if area_height >= 2 { (area_height - 2) as nat } else { 0 },
            ..self
        };
        let synced = match selected {
            Some(i) => if !self.insert_mode {
                sized.select(i as int)
            } else {
                sized.commit(i as int)
            },
            None => sized,
        };
        synced.adjusted()
    }

    /// The state after typing the characters one by one, a line break
    /// breaking the line.
    pub open spec fn typed(self, chars: Seq<char>) -> ContentView
        decreases chars.len(),
    {
        if chars.len() == 0 {
            self
        } else {
            let before = self.typed(chars.drop_last());
            if chars.last() == '\n' {
                before.split_line()
            } else {
                before.insert_char(chars.last())
            }
        }
    }

    pub open spec fn with_placeholder(self, index: int, text: Seq<Seq<char>>) -> ContentView {
        if 0 <= index < TOPIC_COUNT {
            ContentView { placeholders: self.placeholders.update(index, text), ..self }
        } else {
            self
        }
    }
}

/// A copy of a buffer's lines.
fn copy_lines(v: &Vec<Vec<char>>) -> (r: Vec<Vec<char>>)
    ensures
        lines_of(r@) == lines_of(v@),
{
    let mut r: Vec<Vec<char>> = Vec::new();
    let mut i: usize = 0;
    while i < v.len()
        invariant
            i <= v@.len(),
            lines_of(r@) == lines_of(v@).subrange(0, i as int),
        decreases v@.len() - i,
    {
        let line = v[i].clone();
        proof {
            assert(line@ =~= v@[i as int]@);
        }
        let ghost prev = r@;
        r.push(line);
        i += 1;
        proof {
            assert(lines_of(r@) =~= lines_of(prev).push(line@));
            assert(lines_of(r@) =~= lines_of(v@).subrange(0, i as int));
        }
    }
    proof {
        assert(lines_of(v@).subrange(0, i as int) =~= lines_of(v@));
    }
    r
}

/// The lines of a text, each as its characters.
fn lines_from_strings(text: &Vec<String>) -> (r: Vec<Vec<char>>)
    ensures
        lines_of(r@) == text@.map_values(|s: String| s@),
{
    let mut r: Vec<Vec<char>> = Vec::new();
    let mut i: usize = 0;
    while i < text.len()
        invariant
            i <= text@.len(),
            lines_of(r@) == text@.map_values(|s: String| s@).subrange(0, i as int),
        decreases text@.len() - i,
    {
        let ghost prev = r@;
        let line = chars_of(text[i].as_str());
        r.push(line);
        i += 1;
        proof {
            assert(lines_of(r@) =~= lines_of(prev).push(line@));
            assert(lines_of(r@) =~= text@.map_values(|s: String| s@).subrange(0, i as int));
        }
    }
    proof {
        assert(text@.map_values(|s: String| s@).subrange(0, i as int) =~= text@.map_values(
            |s: String| s@,
        ));
    }
    r
}

/// Appends lines to a string, each ended by a line break.
fn append_lines(s: &mut String, lines: &Vec<Vec<char>>)
    ensures
        final(s)@ == old(s)@ + lines_text(lines_of(lines@)),
{
    let mut i: usize = 0;
    while i < lines.len()
        invariant
            i <= lines@.len(),
            s@ == old(s)@ + lines_text(lines_of(lines@).subrange(0, i as int)),
        decreases lines@.len() - i,
    {
        append_chars(s, &lines[i]);
        push_char(s, '\n');
        i += 1;
        proof {
            let done = lines_of(lines@).subrange(0, i as int);
            assert(done.drop_last() =~= lines_of(lines@).subrange(0, i - 1));
            assert(s@ =~= old(s)@ + lines_text(done));
        }
    }
    proof {
        assert(lines_of(lines@).subrange(0, i as int) =~= lines_of(lines@));
    }
}

/// One of the four cursor movements, as the laws below speak of them.
pub enum CursorMove {
    Left,
    Right,
    Up,
    Down,
}

impl ContentView {
    pub open spec fn apply_move(self, m: CursorMove) -> ContentView {
        match m {
            CursorMove::Left => self.move_left(),
            CursorMove::Right => self.move_right(),
            CursorMove::Up => self.move_up(),
            CursorMove::Down => self.move_down(),
        }
    }

    /// The state after the movements, first to last.
    pub open spec fn apply_moves(self, moves: Seq<CursorMove>) -> ContentView
        decreases moves.len(),
    {
        if moves.len() == 0 {
            self
        } else {
            self.apply_moves(moves.drop_last()).apply_move(moves.last())
        }
    }
}

/// A movement keeps the state well formed, and keeps a cursor that is on a
/// line on a line.
pub proof fn lemma_move_keeps_wf(v: ContentView, m: CursorMove)
    requires
        v.wf(),
    ensures
        v.apply_move(m).wf(),
        v.apply_move(m).lines == v.lines,
        v.apply_move(m).height == v.height,
        v.row < v.lines.len() ==> v.apply_move(m).row < v.lines.len(),
{
}

/// Whatever movements are made, the cursor stays on a line and within it (or
/// at the append position at column 0), and the rest of the state stays well
/// formed.
pub proof fn lemma_moves_keep_cursor_valid(v: ContentView, moves: Seq<CursorMove>)
    requires
        v.wf(),
    ensures
        v.apply_moves(moves).wf(),
        v.apply_moves(moves).cursor_valid(),
        v.apply_moves(moves).lines == v.lines,
        v.apply_moves(moves).height == v.height,
        v.row < v.lines.len() ==> v.apply_moves(moves).row < v.lines.len(),
    decreases moves.len(),
{
    if moves.len() > 0 {
        lemma_moves_keep_cursor_valid(v, moves.drop_last());
        lemma_move_keeps_wf(v.apply_moves(moves.drop_last()), moves.last());
    }
}

/// Whatever movements are made from a cursor on a line, with a viewport of at
/// least one line, the cursor line stays on screen.
pub proof fn lemma_moves_keep_cursor_visible(v: ContentView, moves: Seq<CursorMove>)
    requires
        v.wf(),
        v.height > 0,
        v.row < v.lines.len(),
    ensures
        v.apply_moves(moves).scroll <= v.apply_moves(moves).row,
        v.apply_moves(moves).row < v.apply_moves(moves).scroll + v.apply_moves(moves).height,
{
    lemma_moves_keep_cursor_valid(v, moves);
}

/// Breaking a line and then deleting backward gives back the line and the
/// cursor position.
pub proof fn lemma_split_then_delete_restores(v: ContentView)
    requires
        v.wf(),
        v.row < v.lines.len(),
    ensures
        v.split_line().delete_backward().lines == v.lines,
        v.split_line().delete_backward().row == v.row,
        v.split_line().delete_backward().col == v.col,
{
    let line = v.lines[v.row as int];
    let before = line.subrange(0, v.col as int);
    let after = line.subrange(v.col as int, line.len() as int);
    assert(before + after =~= line);
    assert(v.split_line().delete_backward().lines =~= v.lines);
}

/// Typing a character at the start of a line puts it before the line's
/// characters, each moved one place right, and leaves the cursor after it.
pub proof fn lemma_insert_at_line_start(v: ContentView, c: char)
    requires
        v.wf(),
        v.row < v.lines.len(),
        v.col == 0,
    ensures
        v.insert_char(c).lines[v.row as int] == seq![c] + v.lines[v.row as int],
        v.insert_char(c).lines[v.row as int][0] == c,
        forall|i: int|
            0 <= i < v.lines[v.row as int].len() ==> v.insert_char(c).lines[v.row as int][i + 1]
                == v.lines[v.row as int][i],
        v.insert_char(c).col == 1,
        v.insert_char(c).row == v.row,
{
    assert(v.insert_char(c).lines[v.row as int] =~= seq![c] + v.lines[v.row as int]);
}

/// The editing engine: the active topic's line buffer, its cursor and
/// viewport, whether it is being edited, and the text kept for each topic.
pub struct Content {
    content_input: Vec<Vec<char>>,
    placeholders: Vec<Vec<Vec<char>>>,
    enable_insert_mode: bool,
    file_to_save: Vec<Option<Vec<Vec<char>>>>,
    cursor_index_x: usize,
    cursor_index_y: usize,
    scroll_offset: usize,
    visible_height: usize,
}

impl View for Content {
    type V = ContentView;

    closed spec fn view(&self) -> ContentView {
        ContentView {
            lines: lines_of(self.content_input@),
            row: self.cursor_index_y as nat,
            col: self.cursor_index_x as nat,
            scroll: self.scroll_offset as nat,
            height: self.visible_height as nat,
            insert_mode: self.enable_insert_mode,
            saved: self.file_to_save@.map_values(|o: Option<Vec<Vec<char>>>| stored_of(o)),
            placeholders: self.placeholders@.map_values(|p: Vec<Vec<char>>| lines_of(p@)),
        }
    }
}

impl Content {
    /// An empty buffer in navigation, nothing committed, and the dummy line
    /// `empty` as every topic's seed text.
    pub fn new() -> (r: Content)
        ensures
            r@.wf(),
            r@.lines.len() == 0,
            r@.row == 0,
            r@.col == 0,
            r@.scroll == 0,
            r@.height == 0,
            !r@.insert_mode,
            r@.saved == Seq::new(TOPIC_COUNT as nat, |i: int| None::<Seq<Seq<char>>>),
            r@.placeholders == Seq::new(TOPIC_COUNT as nat, |i: int| seq!["empty"@]),
    {
        let mut placeholders: Vec<Vec<Vec<char>>> = Vec::new();
        let mut file_to_save: Vec<Option<Vec<Vec<char>>>> = Vec::new();
        let mut i: usize = 0;
        while i < TOPIC_COUNT
            invariant
                i <= TOPIC_COUNT,
                placeholders@.len() == i,
                file_to_save@.len() == i,
                forall|j: int| 0 <= j < i ==> lines_of(#[trigger] placeholders@[j]@) == seq!["empty"@],
                forall|j: int| 0 <= j < i ==> #[trigger] file_to_save@[j] == None::<Vec<Vec<char>>>,
            decreases TOPIC_COUNT - i,
        {
            let mut seed: Vec<Vec<char>> = Vec::new();
            seed.push(chars_of("empty"));
            proof {
                assert(lines_of(seed@) =~= seq!["empty"@]);
            }
            placeholders.push(seed);
            file_to_save.push(None);
            i += 1;
        }
        let r = Content {
            content_input: Vec::new(),
            placeholders,
            enable_insert_mode: false,
            file_to_save,
            cursor_index_x: 0,
            cursor_index_y: 0,
            scroll_offset: 0,
            visible_height: 0,
        };
        proof {
            assert(r@.saved =~= Seq::new(TOPIC_COUNT as nat, |i: int| None::<Seq<Seq<char>>>));
            assert(r@.placeholders =~= Seq::new(TOPIC_COUNT as nat, |i: int| seq!["empty"@]));
        }
        r
    }

    /// Sets the seed text of the topic at `index`; other indices are ignored.
    pub fn set_placeholder(&mut self, index: usize, text: &Vec<String>)
        requires
            old(self)@.wf(),
        ensures
            final(self)@.wf(),
            final(self)@ == old(self)@.with_placeholder(
                index as int,
                text@.map_values(|s: String| s@),
            ),
    {
        if index < TOPIC_COUNT {
            self.placeholders.set(index, lines_from_strings(text));
            proof {
                assert(self@.placeholders =~= old(self)@.with_placeholder(
                    index as int,
                    text@.map_values(|s: String| s@),
                ).placeholders);
            }
        }
    }

    /// Makes the topic at `index` the buffer's content: its committed text,
    /// or, outside editing, its seed text.
    pub fn select_placeholder(&mut self, index: usize)
        requires
            old(self)@.wf(),
        ensures
            final(self)@.wf(),
            final(self)@ == old(self)@.select(index as int),
    {
        if index < TOPIC_COUNT {
            let loaded = match &self.file_to_save[index] {
                Some(saved_content) => Some(copy_lines(saved_content)),
                None => if !self.enable_insert_mode {
                    Some(copy_lines(&self.placeholders[index]))
                } else {
                    None
                },
            };
            if let Some(lines) = loaded {
                self.content_input = lines;
                self.cursor_index_x = 0;
                self.cursor_index_y = 0;
                self.scroll_offset = 0;
            }
        }
    }

    /// Commits the buffer's lines as the text of the topic at `index`.
    pub fn save_content_for_current_topic(&mut self, index: usize)
        requires
            old(self)@.wf(),
        ensures
            final(self)@.wf(),
            final(self)@ == old(self)@.commit(index as int),
    {
        if index < TOPIC_COUNT {
            let lines = copy_lines(&self.content_input);
            self.file_to_save.set(index, Some(lines));
            proof {
                assert(self@.saved =~= old(self)@.commit(index as int).saved);
            }
        }
    }

    /// Brings the state up to date before a frame is drawn: the viewport
    /// takes the area's height less its borders, the buffer follows the
    /// selected topic (loaded outside editing, committed while editing), and
    /// the view follows the cursor.
    pub fn prepare_render(&mut self, area_height: u16, selected: Option<usize>)
        requires
            old(self)@.wf(),
        ensures
            final(self)@.wf(),
            final(self)@ == old(self)@.prepared(
                area_height as nat,
                match selected {
                    Some(i) => Some(i as nat),
                    None => None,
                },
            ),
    {
        if !self.enable_insert_mode {
            if let Some(selected_index) = selected {
                self.select_placeholder(selected_index);
            }
        } else if let Some(selected_index) = selected {
            self.save_content_for_current_topic(selected_index);
        }
        self.visible_height = if area_height >= 2 { (area_height - 2) as usize } else { 0 };
        self.adjust_scroll();
    }

    /// The buffer's lines, for drawing.
    pub fn lines(&self) -> (r: Vec<String>)
        ensures
            r@.map_values(|l: String| l@) == self@.lines,
    {
        let mut r: Vec<String> = Vec::new();
        let mut i: usize = 0;
        while i < self.content_input.len()
            invariant
                i <= self@.lines.len(),
                r@.map_values(|l: String| l@) == self@.lines.subrange(0, i as int),
            decreases self@.lines.len() - i,
        {
            let ghost prev = r@;
            let line = string_of(&self.content_input[i]);
            r.push(line);
            i += 1;
            proof {
                assert(r@.map_values(|l: String| l@) =~= prev.map_values(|l: String| l@).push(line@));
                assert(r@.map_values(|l: String| l@) =~= self@.lines.subrange(0, i as int));
            }
        }
        proof {
            assert(self@.lines.subrange(0, i as int) =~= self@.lines);
        }
        r
    }

    /// The document to save, built from the committed topics.
    pub fn document(&self) -> (r: String)
        requires
            self@.wf(),
        ensures
            r@ == document_text(self@.saved),
    {
        let mut doc = String::new();
        if let Some(project_lines) = &self.file_to_save[0] {
            doc.append("# ");
            if project_lines.len() > 0 {
                append_chars(&mut doc, &project_lines[0]);
            } else {
                doc.append("Documentation");
            }
            push_char(&mut doc, '\n');
            doc.append("\nThis documentation follows the Diátaxis framework.\n");
            doc.append("Learn more at https://diataxis.fr/\n");
            push_char(&mut doc, '\n');
        }
        proof {
            assert(doc@ =~= title_text(self@.saved[0]));
        }
        let mut index: usize = 1;
        while index < TOPIC_COUNT
            invariant
                self@.wf(),
                1 <= index <= TOPIC_COUNT,
                doc@ == title_text(self@.saved[0]) + sections_text(self@.saved, index as int),
            decreases TOPIC_COUNT - index,
        {
            let ghost before = doc@;
            if let Some(lines) = &self.file_to_save[index] {
                if let Some(topic) = ContentListItem::from_index(index) {
                    doc.append("## ");
                    doc.append(topic.label());
                    push_char(&mut doc, '\n');
                    append_lines(&mut doc, lines);
                    push_char(&mut doc, '\n');
                }
            }
            index += 1;
            proof {
                assert(doc@ =~= before + section_text(self@.saved, index - 1));
            }
        }
        doc
    }

    /// Whether the buffer is being edited.
    pub fn enable_insert_mode(&self) -> (r: bool)
        ensures
            r == self@.insert_mode,
    {
        self.enable_insert_mode
    }

    /// The cursor's column, in characters.
    pub fn cursor_index_x(&self) -> (r: usize)
        ensures
            r == self@.col,
    {
        self.cursor_index_x
    }

    /// The cursor's line.
    pub fn cursor_index_y(&self) -> (r: usize)
        ensures
            r == self@.row,
    {
        self.cursor_index_y
    }

    /// The first visible line.
    pub fn scroll_offset(&self) -> (r: usize)
        ensures
            r == self@.scroll,
    {
        self.scroll_offset
    }

    /// The number of lines the viewport shows.
    pub fn visible_height(&self) -> (r: usize)
        ensures
            r == self@.height,
    {
        self.visible_height
    }

    fn adjust_scroll(&mut self)
        requires
            old(self)@.cursor_valid(),
        ensures
            final(self)@ == old(self)@.adjusted(),
    {
        let total = self.content_input.len();
        let y = self.cursor_index_y;
        let h = self.visible_height;
        if y >= self.scroll_offset && y - self.scroll_offset >= h {
            if h == 0 {
                self.scroll_offset = if y < total { y + 1 } else { total };
            } else {
                self.scroll_offset = y - (h - 1);
            }
        } else if y < self.scroll_offset {
            self.scroll_offset = y;
        }
        let max_scroll = if total >= h { total - h } else { 0 };
        if self.scroll_offset > max_scroll {
            self.scroll_offset = max_scroll;
        }
        proof {
            assert(self@ =~= old(self)@.adjusted());
        }
    }

    /// Types a character at the cursor and moves the cursor past it.
    pub fn insert_char(&mut self, ch: char)
        requires
            old(self)@.wf(),
        ensures
            final(self)@.wf(),
            final(self)@ == old(self)@.insert_char(ch),
    {
        if self.cursor_index_y >= self.content_input.len() {
            self.content_input.push(Vec::new());
        }
        let y = self.cursor_index_y;
        let x = self.cursor_index_x;
        self.content_input[y].insert(x, ch);
        // The line's new length, one more than before, bounds the new column.
        let _len = self.content_input[y].len();
        self.cursor_index_x = x + 1;
        proof {
            assert(self@.lines =~~= old(self)@.insert_char(ch).lines);
        }
        self.adjust_scroll();
    }

    /// Breaks the line at the cursor (the line-break key).
    pub fn handle_enter(&mut self)
        requires
            old(self)@.wf(),
        ensures
            final(self)@.wf(),
            final(self)@ == old(self)@.split_line(),
    {
        let y = self.cursor_index_y;
        if y >= self.content_input.len() {
            self.content_input.push(Vec::new());
            // The new line count, one more than before, bounds the new row.
            let _len = self.content_input.len();
            self.cursor_index_y = y + 1;
            self.cursor_index_x = 0;
            proof {
                assert(self@.lines =~~= old(self)@.lines.push(Seq::empty()));
            }
            self.adjust_scroll();
            return;
        }
        let x = self.cursor_index_x;
        let after = self.content_input[y].split_off(x);
        self.content_input.insert(y + 1, after);
        self.cursor_index_y = y + 1;
        self.cursor_index_x = 0;
        proof {
            let line = old(self)@.lines[y as int];
            assert(self@.lines =~~= old(self)@.lines.update(y as int, line.subrange(0, x as int)).insert(
                y + 1,
                line.subrange(x as int, line.len() as int),
            ));
        }
        self.adjust_scroll();
    }

    /// Deletes backward from the cursor (the backspace key).
    pub fn delete_char(&mut self)
        requires
            old(self)@.wf(),
        ensures
            final(self)@.wf(),
            final(self)@ == old(self)@.delete_backward(),
    {
        let y = self.cursor_index_y;
        let x = self.cursor_index_x;
        if y < self.content_input.len() {
            if x > 0 {
                self.content_input[y].remove(x - 1);
                self.cursor_index_x = x - 1;
                proof {
                    assert(self@.lines =~~= old(self)@.lines.update(
                        y as int,
                        old(self)@.lines[y as int].remove(x - 1),
                    ));
                }
            } else if y > 0 {
                let mut current = self.content_input.remove(y);
                let n = self.content_input[y - 1].len();
                self.content_input[y - 1].append(&mut current);
                self.cursor_index_y = y - 1;
                self.cursor_index_x = n;
                proof {
                    let prev = old(self)@.lines[y - 1];
                    assert(self@.lines =~~= old(self)@.lines.update(
                        y - 1,
                        prev + old(self)@.lines[y as int],
                    ).remove(y as int));
                }
            }
        }
        self.adjust_scroll();
    }

    pub fn move_cursor_left(&mut self)
        requires
            old(self)@.wf(),
        ensures
            final(self)@.wf(),
            final(self)@ == old(self)@.move_left(),
    {
        if self.cursor_index_x > 0 {
            self.cursor_index_x -= 1;
        } else if self.cursor_index_y > 0 {
            self.cursor_index_y -= 1;
            self.cursor_index_x = self.content_input[self.cursor_index_y].len();
        }
        self.adjust_scroll();
    }

    pub fn move_cursor_right(&mut self)
        requires
            old(self)@.wf(),
        ensures
            final(self)@.wf(),
            final(self)@ == old(self)@.move_right(),
    {
        if self.cursor_index_y < self.content_input.len() {
            let current_line_length = self.content_input[self.cursor_index_y].len();
            if self.cursor_index_x < current_line_length {
                self.cursor_index_x += 1;
            } else if self.cursor_index_y + 1 < self.content_input.len() {
                self.cursor_index_y += 1;
                self.cursor_index_x = 0;
            }
        }
        self.adjust_scroll();
    }

    pub fn move_cursor_up(&mut self)
        requires
            old(self)@.wf(),
        ensures
            final(self)@.wf(),
            final(self)@ == old(self)@.move_up(),
    {
        if self.cursor_index_y > 0 {
            self.cursor_index_y -= 1;
            let line_length = self.content_input[self.cursor_index_y].len();
            if self.cursor_index_x > line_length {
                self.cursor_index_x = line_length;
            }
        }
        self.adjust_scroll();
    }

    pub fn move_cursor_down(&mut self)
        requires
            old(self)@.wf(),
        ensures
            final(self)@.wf(),
            final(self)@ == old(self)@.move_down(),
    {
        let n = self.content_input.len();
        if self.cursor_index_y < n && self.cursor_index_y + 1 < n {
            self.cursor_index_y += 1;
            let line_length = self.content_input[self.cursor_index_y].len();
            if self.cursor_index_x > line_length {
                self.cursor_index_x = line_length;
            }
        }
        self.adjust_scroll();
    }

    /// Shows the last page, the cursor at the end of the last line.
    pub fn scroll_to_bottom(&mut self)
        requires
            old(self)@.wf(),
        ensures
            final(self)@.wf(),
            final(self)@ == old(self)@.scroll_to_bottom(),
    {
        let n = self.content_input.len();
        let h = self.visible_height;
        self.scroll_offset = if n >= h { n - h } else { 0 };
        if n > 0 {
            self.cursor_index_y = n - 1;
            self.cursor_index_x = self.content_input[n - 1].len();
        } else {
            self.cursor_index_y = 0;
            self.cursor_index_x = 0;
        }
    }

    /// Shows the first page, the cursor at the start of the first line.
    pub fn scroll_to_top(&mut self)
        requires
            old(self)@.wf(),
        ensures
            final(self)@.wf(),
            final(self)@ == old(self)@.scroll_to_top(),
    {
        self.scroll_offset = 0;
        self.cursor_index_y = 0;
        self.cursor_index_x = 0;
    }

    /// Enters or leaves editing.
    pub fn toggle_insert(&mut self)
        requires
            old(self)@.wf(),
        ensures
            final(self)@.wf(),
            final(self)@ == old(self)@.toggle_insert(),
    {
        self.enable_insert_mode = !self.enable_insert_mode;
        self.cursor_index_y = 0;
        self.cursor_index_x = 0;
        self.scroll_offset = 0;
    }
}

} // verus!
