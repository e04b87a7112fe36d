//! Windows: their labels, the ids of reader windows, and which window is focused when a
//! reader window closes.

use crate::natural::views;
use crate::text::{concat, decimal, has_prefix, lemma_decimal_injective, owned, push_decimal, starts_with};
use vstd::prelude::*;

verus! {

/// The kinds of windows.
#[derive(Clone, Copy, Debug, PartialEq, Eq, Structural)]
pub enum WindowKind {
    /// The library window.
    Main,
    /// A reader window, with its id.
    Reader(u16),
}

/// The color schemes the windows can be shown in.
#[derive(Clone, Copy, Debug, PartialEq, Eq, Structural)]
pub enum ColorMode {
    Auto,
    Light,
    Dark,
}

/// The label of the library window.
pub open spec fn main_label() -> Seq<char> {
    seq!['m', 'a', 'i', 'n']
}

/// The prefix of the labels of reader windows.
pub open spec fn reader_prefix() -> Seq<char> {
    seq!['r', 'e', 'a', 'd', 'e', 'r']
}

/// The label of the reader window with id `id`: `reader-` and the id.
pub open spec fn reader_label(id: u16) -> Seq<char> {
    reader_prefix().push('-') + decimal(id as nat)
}

/// The label of a window of the given kind.
pub open spec fn label_of(kind: WindowKind) -> Seq<char> {
    match kind {
        WindowKind::Main => main_label(),
        WindowKind::Reader(id) => reader_label(id),
    }
}

impl WindowKind {
    /// The label of the window: `main` for the library, `reader-<id>` for a reader window.
    pub fn label(&self) -> (l: String)
        ensures
            l@ == label_of(*self),
    {
        match self {
            WindowKind::Main => {
                let l = owned("main");
                proof {
                    reveal_strlit("main");
                    assert(l@ =~= main_label());
                }
                l
            },
            WindowKind::Reader(id) => {
                let mut l = owned("reader-");
                proof {
                    reveal_strlit("reader-");
                    assert(l@ =~= reader_prefix().push('-'));
                }
                push_decimal(&mut l, *id as u64);
                l
            },
        }
    }
}

/// The position, among the open windows' labels, of the reader window with id `id`, if it is open.
pub fn get_reader_window(open_labels: &Vec<String>, id: u16) -> (r: Option<usize>)
    ensures
        r is Some <==> views(open_labels@).contains(reader_label(id)),
        r is Some ==> r->0 < open_labels@.len() && open_labels@[r->0 as int]@ == reader_label(id),
{
    let label = WindowKind::Reader(id).label();
    let n = open_labels.len();
    let mut i: usize = 0;
    while i < n
        invariant
            n == open_labels@.len(),
            i <= n,
            label@ == reader_label(id),
            forall|k: int| 0 <= k < i ==> open_labels@[k]@ != label@,
        decreases n - i,
    {
        if open_labels[i] == label {
            assert(views(open_labels@)[i as int] == label@);
            return Some(i);
        }
        i = i + 1;
    }
    proof {
        if views(open_labels@).contains(reader_label(id)) {
            let k = choose|k: int| 0 <= k < views(open_labels@).len() && views(open_labels@)[k] == reader_label(id);
            assert(open_labels@[k]@ == reader_label(id));
        }
    }
    None
}

/// The id for a new reader window: the smallest that no open window has. Some id must be free.
pub fn get_available_id(open_labels: &Vec<String>) -> (id: u16)
    requires
        exists|k: u16| !views(open_labels@).contains(#[trigger] reader_label(k)),
    ensures
        !views(open_labels@).contains(reader_label(id)),
        forall|k: u16| k < id ==> views(open_labels@).contains(#[trigger] reader_label(k)),
{
    let mut id: u16 = 0;
    loop
        invariant
            forall|k: u16| k < id ==> views(open_labels@).contains(#[trigger] reader_label(k)),
            exists|k: u16| !views(open_labels@).contains(#[trigger] reader_label(k)),
        decreases u16::MAX - id,
    {
        if get_reader_window(open_labels, id).is_none() {
            return id;
        }
        if id == u16::MAX {
            proof {
                let k = choose|k: u16| !views(open_labels@).contains(#[trigger] reader_label(k));
                assert(k <= id);
                if k < id {
                    assert(views(open_labels@).contains(reader_label(k)));
                }
            }
            return id;
        }
        id = id + 1;
    }
}

/// The script run in a reader window before its page loads, telling it its id.
pub open spec fn initialization_script_of(id: u16) -> Seq<char> {
    "window.KOTORI = { readerWindowId: "@ + decimal(id as nat) + " }"@
}

/// The script that tells a reader window its id: `window.KOTORI = { readerWindowId: <id> }`.
pub fn initialization_script(id: u16) -> (s: String)
    ensures
        s@ == initialization_script_of(id),
{
    let mut s = owned("window.KOTORI = { readerWindowId: ");
    push_decimal(&mut s, id as u64);
    let r = concat(s.as_str(), " }");
    proof {
        assert(r@ =~= initialization_script_of(id));
    }
    r
}

/// The window to focus.
#[derive(Clone, Copy, Debug, PartialEq, Eq, Structural)]
pub enum Focus {
    /// The library window.
    Main,
    /// The reader window with this id.
    Reader(u16),
}

/// The first position of `id` in `order`, or -1.
pub open spec fn position_of(order: Seq<u16>, id: u16) -> int
    decreases order.len(),
{
    if order.len() == 0 {
        -1
    } else if position_of(order.drop_last(), id) >= 0 {
        position_of(order.drop_last(), id)
    } else if order.last() == id {
        order.len() - 1
    } else {
        -1
    }
}

/// The reader windows left after one closes: the others, in the same order.
pub open spec fn remaining_after_close(order: Seq<u16>, closing: u16) -> Seq<u16> {
    if position_of(order, closing) >= 0 {
        order.remove(position_of(order, closing))
    } else {
        order
    }
}

/// The window focused after a reader window closes: the reader window that came just before it,
/// or the first one left when it was first; the library window when no reader window is left.
pub open spec fn focus_after_close_of(order: Seq<u16>, closing: u16) -> Focus {
    let p = position_of(order, closing);
    let previous = if p >= 1 { p - 1 } else { 0 };
    let left = remaining_after_close(order, closing);
    if previous < left.len() {
        Focus::Reader(left[previous])
    } else {
        Focus::Main
    }
}

proof fn lemma_position_of(order: Seq<u16>, id: u16)
    ensures
        -1 <= position_of(order, id) < order.len(),
        position_of(order, id) >= 0 ==> order[position_of(order, id)] == id,
        position_of(order, id) >= 0 ==> forall|k: int| 0 <= k < position_of(order, id) ==> order[k] != id,
        position_of(order, id) == -1 ==> forall|k: int| 0 <= k < order.len() ==> order[k] != id,
    decreases order.len(),
{
    if order.len() > 0 {
        let d = order.drop_last();
        lemma_position_of(d, id);
        assert(forall|k: int| 0 <= k < d.len() ==> d[k] == order[k]);
    }
}

/// Closes the reader window `closing` among the open ones, given in their order: returns the
/// windows left, in the same order, and the window to focus.
pub fn focus_after_close(order: &Vec<u16>, closing: u16) -> (r: (Vec<u16>, Focus))
    ensures
        r.0@ == remaining_after_close(order@, closing),
        r.1 == focus_after_close_of(order@, closing),
{
    proof {
        lemma_position_of(order@, closing);
    }
    let n = order.len();
    let mut i: usize = 0;
    while i < n && order[i] != closing
        invariant
            n == order@.len(),
            i <= n,
            forall|k: int| 0 <= k < i ==> order@[k] != closing,
        decreases n - i,
    {
        i = i + 1;
    }
    let mut left = order.clone();
    let previous: usize;
    if i < n {
        assert(position_of(order@, closing) == i);
        left.remove(i);
        previous = if i >= 1 { i - 1 } else { 0 };
    } else {
        assert(position_of(order@, closing) == -1);
        previous = 0;
    }
    let focus = if previous < left.len() { Focus::Reader(left[previous]) } else { Focus::Main };
    (left, focus)
}

/// Which items of a reader window's menu are enabled.
#[derive(Clone, Copy, Debug, PartialEq, Eq, Structural)]
pub struct ReaderMenuState {
    /// "Add to library": only for a book that is not in the library.
    pub add_to_library: bool,
    /// "Close others": only when another reader window is open.
    pub close_others: bool,
}

/// The state of a reader window's menu, given whether its book is in the library and how many
/// reader windows are open.
pub fn reader_menu_state(book_in_library: bool, reader_windows: usize) -> (s: ReaderMenuState)
    ensures
        s.add_to_library == !book_in_library,
        s.close_others == (reader_windows > 1),
{
    ReaderMenuState { add_to_library: !book_in_library, close_others: reader_windows > 1 }
}

/// The label under which the size and position of the window labelled `label` are saved.
pub open spec fn state_label_of(label: Seq<char>) -> Seq<char> {
    if has_prefix(label, reader_prefix()) {
        reader_prefix()
    } else {
        label
    }
}

/// The label under which a window's size and position are saved: all reader windows share
/// `reader`, any other window keeps its own label.
pub fn window_state_label(label: &str) -> (r: String)
    ensures
        r@ == state_label_of(label@),
{
    proof {
        reveal_strlit("reader");
        assert("reader"@ =~= reader_prefix());
    }
    if starts_with(label, "reader") {
        owned("reader")
    } else {
        owned(label)
    }
}

/// Windows of different kinds, or reader windows with different ids, have different labels.
pub proof fn law_labels_identify_windows(a: WindowKind, b: WindowKind)
    ensures
        label_of(a) == label_of(b) <==> a == b,
{
    if label_of(a) == label_of(b) {
        match (a, b) {
            (WindowKind::Reader(x), WindowKind::Reader(y)) => {
                let p = reader_prefix().push('-');
                assert(decimal(x as nat) =~= label_of(a).subrange(p.len() as int, label_of(a).len() as int));
                assert(decimal(y as nat) =~= label_of(b).subrange(p.len() as int, label_of(b).len() as int));
                lemma_decimal_injective(x as nat, y as nat);
            },
            (WindowKind::Main, WindowKind::Reader(_)) => {
                assert(label_of(a)[0] != label_of(b)[0]);
            },
            (WindowKind::Reader(_), WindowKind::Main) => {
                assert(label_of(a)[0] != label_of(b)[0]);
            },
            _ => {},
        }
    }
}

/// All reader windows save their size and position under one label, `reader`; the library
/// window saves them under its own label.
pub proof fn law_reader_windows_share_state(id: u16)
    ensures
        state_label_of(label_of(WindowKind::Reader(id))) == reader_prefix(),
        state_label_of(label_of(WindowKind::Main)) == main_label(),
{
    assert(label_of(WindowKind::Reader(id)).subrange(0, 6) =~= reader_prefix());
    assert(main_label()[0] != reader_prefix()[0]);
}

/// When the open reader windows are all different, the window focused after one closes is
/// still open and is not the one that closed; the library window is focused only when no
/// reader window is left.
pub proof fn law_focus_goes_to_an_open_window(order: Seq<u16>, closing: u16)
    requires
        order.no_duplicates(),
    ensures
        focus_after_close_of(order, closing) matches Focus::Reader(id)
            ==> remaining_after_close(order, closing).contains(id) && id != closing,
        focus_after_close_of(order, closing) == Focus::Main
            ==> remaining_after_close(order, closing).len() == 0,
{
    lemma_position_of(order, closing);
    let p = position_of(order, closing);
    let left = remaining_after_close(order, closing);
    let previous = if p >= 1 { p - 1 } else { 0 };
    if previous < left.len() {
        assert(left.contains(left[previous]));
        if p >= 0 {
            if left[previous] == closing {
                let k = if previous < p { previous } else { previous + 1 };
                assert(order[k] == closing);
                assert(k != p);
            }
        }
    }
}

/// Closing the reader window at position `p` among open reader windows, all different, leaves
/// the others in their order; it focuses the window just before it, or, when it was the first,
/// the one that came after it; and the library window when it was the only one.
pub proof fn law_close_focuses_the_window_before(order: Seq<u16>, p: int)
    requires
        order.no_duplicates(),
        0 <= p < order.len(),
    ensures
        remaining_after_close(order, order[p]) == order.subrange(0, p) + order.subrange(p + 1, order.len() as int),
        p >= 1 ==> focus_after_close_of(order, order[p]) == Focus::Reader(order[p - 1]),
        p == 0 && order.len() >= 2 ==> focus_after_close_of(order, order[p]) == Focus::Reader(order[1]),
        order.len() == 1 ==> focus_after_close_of(order, order[p]) == Focus::Main,
{
    lemma_position_of(order, order[p]);
    let q = position_of(order, order[p]);
    if q == -1 {
        assert(order[p] != order[p]);
    }
    if q != p {
        assert(order[q] == order[p]);
    }
    assert(q == p);
    let left = remaining_after_close(order, order[p]);
    assert(left =~= order.subrange(0, p) + order.subrange(p + 1, order.len() as int));
    if p >= 1 {
        assert(left[p - 1] == order[p - 1]);
    }
    if p == 0 && order.len() >= 2 {
        assert(left[0] == order[1]);
    }
}

/// Closing a window that is not among the open reader windows leaves them all open, and
/// focuses the first of them, or the library window when there is none.
pub proof fn law_close_of_a_window_not_open(order: Seq<u16>, closing: u16)
    requires
        !order.contains(closing),
    ensures
        remaining_after_close(order, closing) == order,
        order.len() > 0 ==> focus_after_close_of(order, closing) == Focus::Reader(order[0]),
        order.len() == 0 ==> focus_after_close_of(order, closing) == Focus::Main,
{
    lemma_position_of(order, closing);
    if position_of(order, closing) >= 0 {
        assert(order.contains(order[position_of(order, closing)]));
    }
}

} // verus!
