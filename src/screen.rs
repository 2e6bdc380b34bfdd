use vstd::prelude::*;
use vstd::string::*;

use crate::content::{Content, ContentView, TOPIC_COUNT};

verus! {

/// Abstract state of the topic list.
pub struct ScreenView {
    /// Captions of the topics, in order.
    pub items: Seq<Seq<char>>,
    /// Position of the selected topic.
    pub selected: Option<nat>,
    /// Whether the exit dialog is shown.
    pub show_popup: bool,
}

/// Captions of the topic list, in topic order.
pub open spec fn topic_captions() -> Seq<Seq<char>> {
    seq!["Project Name"@, "Tutorials"@, "How-to Guides"@, "Explanation"@, "Reference"@]
}

/// The selection after moving down, wrapping past the last topic to the first.
pub open spec fn next_index(selected: Option<nat>) -> nat {
    match selected {
        Some(i) => if i >= TOPIC_COUNT - 1 {
            0
        } else {
            i + 1
        },
        None => 0,
    }
}

/// The selection after moving up, wrapping before the first topic to the last.
pub open spec fn previous_index(selected: Option<nat>) -> nat {
    match selected {
        Some(i) => if i == 0 {
            (TOPIC_COUNT - 1) as nat
        } else {
            (i - 1) as nat
        },
        None => 0,
    }
}

impl ScreenView {
    pub open spec fn wf(self) -> bool {
        &&& self.items == topic_captions()
        &&& match self.selected {
            Some(i) => i < TOPIC_COUNT,
            None => true,
        }
    }

    pub open spec fn with_selected(self, i: nat) -> ScreenView {
        ScreenView { selected: Some(i), ..self }
    }
}

/// Topic list state and content after `k` moves down the list.
pub open spec fn nexts(s: ScreenView, c: ContentView, k: nat) -> (ScreenView, ContentView)
    decreases k,
{
    if k == 0 {
        (s, c)
    } else {
        let (s1, c1) = nexts(s, c, (k - 1) as nat);
        let i = next_index(s1.selected);
        (s1.with_selected(i), c1.select(i as int))
    }
}

/// Topic list state and content after `k` moves up the list.
pub open spec fn previouses(s: ScreenView, c: ContentView, k: nat) -> (ScreenView, ContentView)
    decreases k,
{
    if k == 0 {
        (s, c)
    } else {
        let (s1, c1) = previouses(s, c, (k - 1) as nat);
        let i = previous_index(s1.selected);
        (s1.with_selected(i), c1.select(i as int))
    }
}

/// The topic list: the captions, which one is selected, and whether the exit
/// dialog is shown over it.
pub struct Screen {
    items: Vec<String>,
    selected: Option<usize>,
    show_popup: bool,
}

impl View for Screen {
    type V = ScreenView;

    closed spec fn view(&self) -> ScreenView {
        ScreenView {
            items: self.items@.map_values(|s: String| s@),
            selected: match self.selected {
                Some(i) => Some(i as nat),
                None => None,
            },
            show_popup: self.show_popup,
        }
    }
}

impl Screen {
    /// The five topics, the first one selected, no dialog shown.
    pub fn new() -> (r: Screen)
        ensures
            r@.wf(),
            r@.selected == Some(0nat),
            !r@.show_popup,
    {
        let items = vec![
            String::from_str("Project Name"),
            String::from_str("Tutorials"),
            String::from_str("How-to Guides"),
            String::from_str("Explanation"),
            String::from_str("Reference"),
        ];
        let r = Screen { items, selected: Some(0), show_popup: false };
        proof {
            assert(r@.items =~= topic_captions());
        }
        r
    }

    /// Selects the next topic, wrapping to the first, and shows it.
    pub fn next(&mut self, content: &mut Content)
        requires
            old(self)@.wf(),
            old(content)@.wf(),
        ensures
            final(self)@.wf(),
            final(content)@.wf(),
            final(self)@ == old(self)@.with_selected(next_index(old(self)@.selected)),
            final(content)@ == old(content)@.select(next_index(old(self)@.selected) as int),
    {
        proof {
            assert(self.items@.map_values(|s: String| s@).len() == self.items@.len());
        }
        let i = match self.selected {
            Some(i) => {
                if i >= self.items.len() - 1 {
                    0
                } else {
                    i + 1
                }
            },
            None => 0,
        };
        self.selected = Some(i);
        content.select_placeholder(i);
    }

    /// Selects the previous topic, wrapping to the last, and shows it.
    pub fn previous(&mut self, content: &mut Content)
        requires
            old(self)@.wf(),
            old(content)@.wf(),
        ensures
            final(self)@.wf(),
            final(content)@.wf(),
            final(self)@ == old(self)@.with_selected(previous_index(old(self)@.selected)),
            final(content)@ == old(content)@.select(previous_index(old(self)@.selected) as int),
    {
        proof {
            assert(self.items@.map_values(|s: String| s@).len() == self.items@.len());
        }
        let i = match self.selected {
            Some(i) => {
                if i == 0 {
                    self.items.len() - 1
                } else {
                    i - 1
                }
            },
            None => 0,
        };
        self.selected = Some(i);
        content.select_placeholder(i);
    }

    /// Shows or hides the exit dialog.
    pub fn toggle_popup(&mut self)
        requires
            old(self)@.wf(),
        ensures
            final(self)@.wf(),
            final(self)@ == (ScreenView { show_popup: !old(self)@.show_popup, ..old(self)@ }),
    {
        self.show_popup = !self.show_popup;
    }

    /// Position of the selected topic.
    pub fn selected(&self) -> (r: Option<usize>)
        ensures
            match r {
                Some(i) => self@.selected == Some(i as nat),
                None => self@.selected == None::<nat>,
            },
    {
        self.selected
    }

    /// Whether the exit dialog is shown.
    pub fn show_popup(&self) -> (r: bool)
        ensures
            r == self@.show_popup,
    {
        self.show_popup
    }

    /// Captions of the topics, in order.
    pub fn items(&self) -> (r: &Vec<String>)
        ensures
            r@.map_values(|s: String| s@) == self@.items,
    {
        &self.items
    }
}

/// Moving through the list loads each topic without touching what is
/// committed, and keeps the states well formed.
proof fn lemma_nexts_keep_store(s: ScreenView, c: ContentView, k: nat)
    requires
        s.wf(),
        c.wf(),
    ensures
        nexts(s, c, k).0.wf(),
        nexts(s, c, k).1.wf(),
        nexts(s, c, k).1.saved == c.saved,
        nexts(s, c, k).1.insert_mode == c.insert_mode,
        nexts(s, c, k).0.selected is Some || k == 0,
    decreases k,
{
    if k > 0 {
        lemma_nexts_keep_store(s, c, (k - 1) as nat);
    }
}

proof fn lemma_previouses_keep_store(s: ScreenView, c: ContentView, k: nat)
    requires
        s.wf(),
        c.wf(),
    ensures
        previouses(s, c, k).0.wf(),
        previouses(s, c, k).1.wf(),
        previouses(s, c, k).1.saved == c.saved,
        previouses(s, c, k).1.insert_mode == c.insert_mode,
    decreases k,
{
    if k > 0 {
        lemma_previouses_keep_store(s, c, (k - 1) as nat);
    }
}

/// Moving down the list five times comes back to the topic that was
/// selected, and shows again the text committed for it before leaving.
pub proof fn lemma_five_nexts_restore(s: ScreenView, c: ContentView)
    requires
        s.wf(),
        c.wf(),
        s.selected is Some,
    ensures
        nexts(s, c.commit(s.selected->0 as int), 5).0.selected == s.selected,
        nexts(s, c.commit(s.selected->0 as int), 5).1.lines == c.lines,
{
    let c0 = c.commit(s.selected->0 as int);
    lemma_nexts_keep_store(s, c0, 4);
    reveal_with_fuel(nexts, 6);
}

/// Moving up the list five times comes back to the topic that was selected,
/// and shows again the text committed for it before leaving.
pub proof fn lemma_five_previouses_restore(s: ScreenView, c: ContentView)
    requires
        s.wf(),
        c.wf(),
        s.selected is Some,
    ensures
        previouses(s, c.commit(s.selected->0 as int), 5).0.selected == s.selected,
        previouses(s, c.commit(s.selected->0 as int), 5).1.lines == c.lines,
{
    let c0 = c.commit(s.selected->0 as int);
    lemma_previouses_keep_store(s, c0, 4);
    reveal_with_fuel(previouses, 6);
}

} // verus!
