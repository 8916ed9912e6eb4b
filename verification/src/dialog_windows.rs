//! Which dialog windows the shell has up, and the three flags that travel with
//! them: whether the command palette is open, whether find-and-replace is in
//! use, and whether an item properties dialog is waiting on the active tool.
//!
//! The shell keeps one window per dialog kind. Every decision about opening,
//! raising and closing those windows is made here; the shell performs the
//! window operations that the answers name.

use vstd::prelude::*;
use crate::dialogs::DialogKind;
use crate::shell_flow::{escape_action, escape_action_of, EscapeAction};

verus! {

/// What closing a dialog asks of the shell.
#[derive(Clone, Copy, Debug, PartialEq, Eq, Structural)]
pub struct DialogClosed {
    /// A window of that kind was up and has to be removed.
    pub remove_window: bool,
    /// The dialog was the item properties a tool was waiting on: abandon the
    /// tool.
    pub cancel_tool: bool,
}

/// The shell's dialog windows and modal flags.
pub struct DialogWindows {
    open: Vec<DialogKind>,
    palette_open: bool,
    search_open: bool,
    pending_item_properties: bool,
}

impl DialogWindows {
    /// No kind is listed twice: one window per kind.
    #[verifier::type_invariant]
    spec fn one_window_per_kind(self) -> bool {
        self.open@.no_duplicates()
    }

    /// The dialog kinds whose windows are up.
    pub closed spec fn open_kinds(self) -> Set<DialogKind> {
        Set::new(|kind: DialogKind| self.open@.contains(kind))
    }

    /// Whether the command palette is open.
    pub closed spec fn palette(self) -> bool {
        self.palette_open
    }

    /// Whether find-and-replace is in use.
    pub closed spec fn searching(self) -> bool {
        self.search_open
    }

    /// Whether an item properties dialog is waiting on the active tool.
    pub closed spec fn pending(self) -> bool {
        self.pending_item_properties
    }

    /// Nothing open, nothing pending.
    pub fn new() -> (windows: DialogWindows)
        ensures
            windows.open_kinds() == Set::<DialogKind>::empty(),
            !windows.palette(),
            !windows.searching(),
            !windows.pending(),
    {
        let windows = DialogWindows {
            open: Vec::new(),
            palette_open: false,
            search_open: false,
            pending_item_properties: false,
        };
        assert(windows.open_kinds() =~= Set::<DialogKind>::empty());
        windows
    }

    /// Whether a window of `kind` is up. Opening a workflow whose window is up
    /// raises that window; presenting a dialog of a kind that is up replaces
    /// its content instead of opening a second window.
    pub fn is_open(&self, kind: DialogKind) -> (open: bool)
        ensures
            open == self.open_kinds().contains(kind),
    {
        let mut i: usize = 0;
        while i < self.open.len()
            invariant
                i <= self.open@.len(),
                forall|j: int| 0 <= j < i ==> self.open@[j] != kind,
            decreases self.open@.len() - i,
        {
            if self.open[i] == kind {
                return true;
            }
            i = i + 1;
        }
        false
    }

    /// A window of `kind` has been opened.
    pub fn opened(&mut self, kind: DialogKind)
        ensures
            final(self).open_kinds() == old(self).open_kinds().insert(kind),
            final(self).palette() == old(self).palette(),
            final(self).searching() == old(self).searching(),
            final(self).pending() == old(self).pending(),
    {
        proof { use_type_invariant(&*self); }
        if !self.is_open(kind) {
            let mut open = Vec::new();
            std::mem::swap(&mut open, &mut self.open);
            let ghost before = open@;
            open.push(kind);
            proof {
                assert(open@ == before.push(kind));
                assert forall|a: int, b: int| 0 <= a < b < open@.len() implies open@[a] != open@[b] by {
                    if b == open@.len() - 1 {
                        assert(before.contains(open@[a]));
                    }
                }
                assert forall|k: DialogKind| open@.contains(k) <==> (before.contains(k) || k == kind) by {
                    if open@.contains(k) && k != kind {
                        let j = choose|j: int| 0 <= j < open@.len() && open@[j] == k;
                        assert(before[j] == k);
                    }
                    if before.contains(k) {
                        let j = choose|j: int| 0 <= j < before.len() && before[j] == k;
                        assert(open@[j] == k);
                    }
                    if k == kind {
                        assert(open@[open@.len() - 1] == k);
                    }
                }
            }
            self.open = open;
        }
        assert(self.open_kinds() =~= old(self).open_kinds().insert(kind));
    }

    /// Close the window of `kind`, if one is up, and clear what depended on
    /// it: closing find-and-replace ends the search, and closing an item
    /// properties dialog that a tool was waiting on abandons that tool.
    ///
    /// The shell calls this also when the user closed the window: then
    /// `remove_window` is of no further use.
    pub fn close(&mut self, kind: DialogKind) -> (closed: DialogClosed)
        ensures
            closed.remove_window == old(self).open_kinds().contains(kind),
            closed.cancel_tool == (kind == DialogKind::Properties && old(self).pending()),
            final(self).open_kinds() == old(self).open_kinds().remove(kind),
            final(self).palette() == old(self).palette(),
            final(self).searching() == (old(self).searching() && kind != DialogKind::Search),
            final(self).pending() == (old(self).pending() && kind != DialogKind::Properties),
    {
        proof { use_type_invariant(&*self); }
        let mut open = Vec::new();
        std::mem::swap(&mut open, &mut self.open);
        let ghost before = open@;
        let mut remove_window = false;
        let mut found = false;
        let mut i: usize = 0;
        while i < open.len() && !found
            invariant
                i <= open@.len(),
                open@ == before,
                found ==> i < open@.len() && open@[i as int] == kind,
                !found ==> forall|j: int| 0 <= j < i ==> open@[j] != kind,
            decreases open@.len() - i + if found { 0int } else { 1int },
        {
            if open[i] == kind {
                found = true;
            } else {
                i = i + 1;
            }
        }
        if found {
            open.remove(i);
            remove_window = true;
            proof {
                assert forall|k: DialogKind| open@.contains(k) <==> (before.contains(k) && k != kind) by {
                    if open@.contains(k) {
                        let j = choose|j: int| 0 <= j < open@.len() && open@[j] == k;
                        if j < i {
                            assert(before[j] == k);
                        } else {
                            assert(before[j + 1] == k);
                        }
                    }
                    if before.contains(k) && k != kind {
                        let j = choose|j: int| 0 <= j < before.len() && before[j] == k;
                        if j < i {
                            assert(open@[j] == k);
                        } else {
                            assert(j != i);
                            assert(open@[j - 1] == k);
                        }
                    }
                }
                assert forall|a: int, b: int| 0 <= a < b < open@.len() implies open@[a] != open@[b] by {
                    let a0 = if a < i { a } else { a + 1 };
                    let b0 = if b < i { b } else { b + 1 };
                    assert(open@[a] == before[a0]);
                    assert(open@[b] == before[b0]);
                }
            }
        }
        self.open = open;
        let cancel_tool = match kind {
            DialogKind::Properties => self.pending_item_properties,
            _ => false,
        };
        if cancel_tool {
            self.pending_item_properties = false;
        }
        match kind {
            DialogKind::Search => {
                self.search_open = false;
            },
            _ => {},
        }
        assert(self.open_kinds() =~= old(self).open_kinds().remove(kind));
        DialogClosed { remove_window, cancel_tool }
    }

    /// Close every dialog window at once, as the shell does when it goes
    /// away. Answers the kinds whose windows are to be removed, each once.
    pub fn close_all(&mut self) -> (kinds: Vec<DialogKind>)
        ensures
            kinds@.to_set() == old(self).open_kinds(),
            kinds@.no_duplicates(),
            final(self).open_kinds() == Set::<DialogKind>::empty(),
            final(self).palette() == old(self).palette(),
            final(self).searching() == old(self).searching(),
            final(self).pending() == old(self).pending(),
    {
        proof { use_type_invariant(&*self); }
        let mut kinds = Vec::new();
        std::mem::swap(&mut kinds, &mut self.open);
        assert(kinds@.to_set() =~= old(self).open_kinds());
        assert(self.open_kinds() =~= Set::<DialogKind>::empty());
        kinds
    }

    /// Open the command palette.
    pub fn open_palette(&mut self)
        ensures
            final(self).palette(),
            final(self).open_kinds() == old(self).open_kinds(),
            final(self).searching() == old(self).searching(),
            final(self).pending() == old(self).pending(),
    {
        proof { use_type_invariant(&*self); }
        self.palette_open = true;
    }

    /// Close the command palette; answers whether it was open, which is when
    /// the shell gives the focus back to the canvas.
    pub fn close_palette(&mut self) -> (was_open: bool)
        ensures
            was_open == old(self).palette(),
            !final(self).palette(),
            final(self).open_kinds() == old(self).open_kinds(),
            final(self).searching() == old(self).searching(),
            final(self).pending() == old(self).pending(),
    {
        proof { use_type_invariant(&*self); }
        let was_open = self.palette_open;
        self.palette_open = false;
        was_open
    }

    /// What Escape does now: close the palette, else the item properties a
    /// tool is waiting on, else abandon the tool.
    pub fn escape(&self) -> (action: EscapeAction)
        ensures
            action == escape_action_of(self.palette(), self.pending()),
    {
        escape_action(self.palette_open, self.pending_item_properties)
    }

    /// Before a workflow dialog opens: the item properties a tool was waiting
    /// on close (the answer says what that asks of the shell), and the
    /// palette closes.
    pub fn begin_workflow(&mut self) -> (closed: Option<DialogClosed>)
        ensures
            closed is Some <==> old(self).pending(),
            old(self).pending() ==> closed == Some(DialogClosed {
                remove_window: old(self).open_kinds().contains(DialogKind::Properties),
                cancel_tool: true,
            }),
            final(self).open_kinds() == if old(self).pending() {
                old(self).open_kinds().remove(DialogKind::Properties)
            } else {
                old(self).open_kinds()
            },
            !final(self).palette(),
            !final(self).pending(),
            final(self).searching() == old(self).searching(),
    {
        proof { use_type_invariant(&*self); }
        let closed = if self.pending_item_properties {
            Some(self.close(DialogKind::Properties))
        } else {
            None
        };
        proof { use_type_invariant(&*self); }
        self.palette_open = false;
        closed
    }

    /// Find-and-replace opens: the search is in use and the palette closes.
    /// The shell then presents the search dialog.
    pub fn start_search(&mut self)
        ensures
            final(self).searching(),
            !final(self).palette(),
            final(self).open_kinds() == old(self).open_kinds(),
            final(self).pending() == old(self).pending(),
    {
        proof { use_type_invariant(&*self); }
        self.search_open = true;
        self.palette_open = false;
    }

    /// A find-next or find-previous step: answers whether the search dialog
    /// has to be presented first, which is when no search was in use.
    pub fn search_step(&mut self) -> (present: bool)
        ensures
            present == !old(self).searching(),
            final(self).searching(),
            final(self).palette() == old(self).palette(),
            final(self).open_kinds() == old(self).open_kinds(),
            final(self).pending() == old(self).pending(),
    {
        proof { use_type_invariant(&*self); }
        let present = !self.search_open;
        self.search_open = true;
        present
    }

    /// The item properties dialog was shown on the active tool's behalf: the
    /// tool waits on it exactly when its window is up.
    pub fn await_properties(&mut self)
        ensures
            final(self).pending() == old(self).open_kinds().contains(DialogKind::Properties),
            final(self).open_kinds() == old(self).open_kinds(),
            final(self).palette() == old(self).palette(),
            final(self).searching() == old(self).searching(),
    {
        proof { use_type_invariant(&*self); }
        let up = self.is_open(DialogKind::Properties);
        self.pending_item_properties = up;
    }

    /// Item properties were applied. A dialog a tool was waiting on closes
    /// (the tool has its answer and is not abandoned); otherwise the answer
    /// is `None` and the shell shows the updated properties again.
    pub fn properties_applied(&mut self) -> (closed: Option<DialogClosed>)
        ensures
            closed is Some <==> old(self).pending(),
            old(self).pending() ==> closed == Some(DialogClosed {
                remove_window: old(self).open_kinds().contains(DialogKind::Properties),
                cancel_tool: false,
            }),
            final(self).open_kinds() == if old(self).pending() {
                old(self).open_kinds().remove(DialogKind::Properties)
            } else {
                old(self).open_kinds()
            },
            !final(self).pending(),
            final(self).palette() == old(self).palette(),
            final(self).searching() == old(self).searching(),
    {
        proof { use_type_invariant(&*self); }
        if self.pending_item_properties {
            self.pending_item_properties = false;
            Some(self.close(DialogKind::Properties))
        } else {
            None
        }
    }
}

} // verus!
