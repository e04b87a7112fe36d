//! Menus as plain values: the entries each menu shows, and how an item is found by its id to be
//! checked, unchecked, enabled or disabled. The windowing toolkit draws what these values say.

use crate::text::{owned, same_text};
use vstd::prelude::*;

verus! {

/// What the about box says of the application.
#[derive(Clone, Debug, PartialEq, Eq)]
pub struct AboutMetadata {
    pub name: String,
    pub version: String,
    pub copyright: String,
    /// Not shown on every platform.
    pub license: Option<String>,
}

/// An entry that the toolkit draws by itself.
#[derive(Clone, Debug, PartialEq, Eq)]
pub enum Predefined {
    /// A line between groups of entries.
    Separator,
    /// Quits the application.
    Quit,
    /// Opens the about box, which shows the metadata.
    About { text: String, metadata: AboutMetadata },
}

/// An item that runs an action when chosen.
#[derive(Clone, Debug, PartialEq, Eq)]
pub struct MenuItem {
    pub id: String,
    pub text: String,
    pub enabled: bool,
}

/// An item with a check mark.
#[derive(Clone, Debug, PartialEq, Eq)]
pub struct CheckItem {
    pub id: String,
    pub text: String,
    pub checked: bool,
    pub enabled: bool,
}

/// A submenu. Its id, when it has one of its own, is never one of the items' ids.
#[derive(Debug, PartialEq, Eq)]
pub struct Submenu {
    pub id: Option<String>,
    pub text: String,
    pub enabled: bool,
    pub entries: Vec<MenuEntry>,
}

/// An entry of a menu.
#[derive(Debug, PartialEq, Eq)]
pub enum MenuEntry {
    Item(MenuItem),
    Check(CheckItem),
    Submenu(Submenu),
    Predefined(Predefined),
}

/// A menu: its entries, in order.
#[derive(Debug, PartialEq, Eq)]
pub struct Menu {
    pub entries: Vec<MenuEntry>,
}

/// An entry of a menu, as the characters of its texts.
pub enum EntryView {
    Item { id: Seq<char>, text: Seq<char>, enabled: bool },
    Check { id: Seq<char>, text: Seq<char>, checked: bool, enabled: bool },
    Submenu { id: Option<Seq<char>>, text: Seq<char>, enabled: bool, entries: Seq<EntryView> },
    Separator,
    Quit,
    About {
        text: Seq<char>,
        name: Seq<char>,
        version: Seq<char>,
        copyright: Seq<char>,
        license: Option<Seq<char>>,
    },
}

/// The characters of an optional string.
pub open spec fn option_view(o: Option<String>) -> Option<Seq<char>> {
    match o {
        Some(s) => Some(s@),
        None => None,
    }
}

/// An entry, as the characters of its texts.
pub open spec fn entry_view(e: MenuEntry) -> EntryView
    decreases e,
{
    match e {
        MenuEntry::Item(item) => EntryView::Item { id: item.id@, text: item.text@, enabled: item.enabled },
        MenuEntry::Check(item) => EntryView::Check {
            id: item.id@,
            text: item.text@,
            checked: item.checked,
            enabled: item.enabled,
        },
        MenuEntry::Submenu(menu) => EntryView::Submenu {
            id: option_view(menu.id),
            text: menu.text@,
            enabled: menu.enabled,
            entries: entries_view(menu.entries@),
        },
        MenuEntry::Predefined(Predefined::Separator) => EntryView::Separator,
        MenuEntry::Predefined(Predefined::Quit) => EntryView::Quit,
        MenuEntry::Predefined(Predefined::About { text, metadata }) => EntryView::About {
            text: text@,
            name: metadata.name@,
            version: metadata.version@,
            copyright: metadata.copyright@,
            license: option_view(metadata.license),
        },
    }
}

/// Entries, as the characters of their texts.
pub open spec fn entries_view(s: Seq<MenuEntry>) -> Seq<EntryView>
    decreases s,
{
    if s.len() == 0 {
        Seq::empty()
    } else {
        entries_view(s.drop_last()).push(entry_view(s.last()))
    }
}


/// Each entry is seen as its view, in the same order.
pub proof fn lemma_entries_view(s: Seq<MenuEntry>)
    ensures
        entries_view(s).len() == s.len(),
        forall|i: int| 0 <= i < s.len() ==> #[trigger] entries_view(s)[i] == entry_view(s[i]),
    decreases s.len(),
{
    if s.len() > 0 {
        lemma_entries_view(s.drop_last());
    }
}

/// The views of two runs of entries, one after the other.
proof fn lemma_entries_view_add(a: Seq<MenuEntry>, b: Seq<MenuEntry>)
    ensures
        entries_view(a + b) == entries_view(a) + entries_view(b),
{
    lemma_entries_view(a);
    lemma_entries_view(b);
    lemma_entries_view(a + b);
    assert(entries_view(a + b) =~= entries_view(a) + entries_view(b));
}

/// The entries once the check item `id` is checked or unchecked: entries are looked at in
/// order, submenus searched as they come; the first check item with that id at a level is set,
/// and the search stops at that level.
pub open spec fn with_checked(s: Seq<EntryView>, id: Seq<char>, checked: bool) -> Seq<EntryView>
    decreases s,
{
    if s.len() == 0 {
        s
    } else {
        let rest = s.subrange(1, s.len() as int);
        match s[0] {
            EntryView::Check { id: item_id, text, enabled, .. } => {
                if item_id == id {
                    seq![EntryView::Check { id: item_id, text, checked, enabled }] + rest
                } else {
                    seq![s[0]] + with_checked(rest, id, checked)
                }
            },
            EntryView::Submenu { id: menu_id, text, enabled, entries } => seq![
                EntryView::Submenu { id: menu_id, text, enabled, entries: with_checked(entries, id, checked) },
            ] + with_checked(rest, id, checked),
            _ => seq![s[0]] + with_checked(rest, id, checked),
        }
    }
}

/// The entries once the item `id` is enabled or disabled: entries are looked at in order; the
/// first item or check item with that id at a level is set, and the search stops at that
/// level; a submenu with that id is set itself, any other submenu is searched.
pub open spec fn with_enabled(s: Seq<EntryView>, id: Seq<char>, enabled: bool) -> Seq<EntryView>
    decreases s,
{
    if s.len() == 0 {
        s
    } else {
        let rest = s.subrange(1, s.len() as int);
        match s[0] {
            EntryView::Item { id: item_id, text, .. } => {
                if item_id == id {
                    seq![EntryView::Item { id: item_id, text, enabled }] + rest
                } else {
                    seq![s[0]] + with_enabled(rest, id, enabled)
                }
            },
            EntryView::Check { id: item_id, text, checked, .. } => {
                if item_id == id {
                    seq![EntryView::Check { id: item_id, text, checked, enabled }] + rest
                } else {
                    seq![s[0]] + with_enabled(rest, id, enabled)
                }
            },
            EntryView::Submenu { id: menu_id, text, enabled: was, entries } => {
                if menu_id == Some(id) {
                    seq![EntryView::Submenu { id: menu_id, text, enabled, entries }] + with_enabled(rest, id, enabled)
                } else {
                    seq![EntryView::Submenu { id: menu_id, text, enabled: was, entries: with_enabled(entries, id, enabled) }]
                        + with_enabled(rest, id, enabled)
                }
            },
            _ => seq![s[0]] + with_enabled(rest, id, enabled),
        }
    }
}

/// Adding an entry at the end adds its view at the end.
pub proof fn lemma_entries_view_push(s: Seq<MenuEntry>, x: MenuEntry)
    ensures
        entries_view(s.push(x)) == entries_view(s).push(entry_view(x)),
{
    assert(s.push(x).drop_last() =~= s);
}

/// Checks or unchecks the check item `id` among `entries`, as `with_checked` says.
fn set_checked_in(entries: Vec<MenuEntry>, id: &str, checked: bool) -> (r: Vec<MenuEntry>)
    ensures
        entries_view(r@) == with_checked(entries_view(entries@), id@, checked),
    decreases entries@,
{
    let ghost given = entries@;
    let mut rest = entries;
    let mut out: Vec<MenuEntry> = Vec::new();
    let ghost mut k: int = 0;
    while rest.len() > 0
        invariant
            given == entries@,
            0 <= k <= given.len(),
            rest@ == given.subrange(k, given.len() as int),
            with_checked(entries_view(given), id@, checked) == entries_view(out@) + with_checked(
                entries_view(rest@),
                id@,
                checked,
            ),
        decreases rest.len(),
    {
        let ghost before = out@;
        let ghost view = entries_view(rest@);
        let ghost tail = rest@.subrange(1, rest@.len() as int);
        proof {
            lemma_entries_view(rest@);
            lemma_entries_view(tail);
            assert(view.subrange(1, view.len() as int) =~= entries_view(tail));
        }
        let e = rest.remove(0);
        proof {
            assert(rest@ =~= tail);
            assert(e == given[k]);
            assert(view[0] == entry_view(e));
        }
        match e {
            MenuEntry::Check(item) => {
                if same_text(item.id.as_str(), id) {
                    let set = MenuEntry::Check(CheckItem { id: item.id, text: item.text, checked, enabled: item.enabled });
                    out.push(set);
                    proof {
                        lemma_entries_view_push(before, set);
                        lemma_entries_view_add(out@, rest@);
                        assert(with_checked(view, id@, checked) == seq![entry_view(set)] + entries_view(tail));
                        assert(entries_view(before) + (seq![entry_view(set)] + entries_view(tail)) =~= entries_view(
                            before,
                        ).push(entry_view(set)) + entries_view(tail));
                    }
                    out.append(&mut rest);
                    return out;
                }
                let kept = MenuEntry::Check(item);
                out.push(kept);
                proof {
                    lemma_entries_view_push(before, kept);
                    assert(with_checked(view, id@, checked) == seq![entry_view(kept)] + with_checked(
                        entries_view(tail),
                        id@,
                        checked,
                    ));
                    assert(entries_view(before) + (seq![entry_view(kept)] + with_checked(entries_view(tail), id@, checked))
                        =~= entries_view(before).push(entry_view(kept)) + with_checked(entries_view(tail), id@, checked));
                }
            },
            MenuEntry::Submenu(menu) => {
                proof {
                    assert(decreases_to!(given => given[k]));
                    assert(decreases_to!(given[k] => menu));
                    assert(decreases_to!(menu => menu.entries));
                    assert(decreases_to!(menu.entries => menu.entries@));
                }
                let inner = set_checked_in(menu.entries, id, checked);
                let searched = MenuEntry::Submenu(Submenu { id: menu.id, text: menu.text, enabled: menu.enabled, entries: inner });
                out.push(searched);
                proof {
                    lemma_entries_view_push(before, searched);
                    assert(with_checked(view, id@, checked) == seq![entry_view(searched)] + with_checked(
                        entries_view(tail),
                        id@,
                        checked,
                    ));
                    assert(entries_view(before) + (seq![entry_view(searched)] + with_checked(entries_view(tail), id@, checked))
                        =~= entries_view(before).push(entry_view(searched)) + with_checked(entries_view(tail), id@, checked));
                }
            },
            other => {
                out.push(other);
                proof {
                    lemma_entries_view_push(before, other);
                    assert(with_checked(view, id@, checked) == seq![entry_view(other)] + with_checked(
                        entries_view(tail),
                        id@,
                        checked,
                    ));
                    assert(entries_view(before) + (seq![entry_view(other)] + with_checked(entries_view(tail), id@, checked))
                        =~= entries_view(before).push(entry_view(other)) + with_checked(entries_view(tail), id@, checked));
                }
            },
        }
        proof {
            k = k + 1;
            assert(rest@ =~= given.subrange(k, given.len() as int));
        }
    }
    proof {
        assert(entries_view(rest@) =~= Seq::<EntryView>::empty());
        assert(entries_view(out@) + Seq::<EntryView>::empty() =~= entries_view(out@));
    }
    out
}

/// Whether an optional id is `id`.
fn is_id(own: &Option<String>, id: &str) -> (r: bool)
    ensures
        r == (option_view(*own) == Some(id@)),
{
    match own {
        Some(own) => same_text(own.as_str(), id),
        None => false,
    }
}

/// Enables or disables the item `id` among `entries`, as `with_enabled` says.
fn set_enabled_in(entries: Vec<MenuEntry>, id: &str, enabled: bool) -> (r: Vec<MenuEntry>)
    ensures
        entries_view(r@) == with_enabled(entries_view(entries@), id@, enabled),
    decreases entries@,
{
    let ghost given = entries@;
    let mut rest = entries;
    let mut out: Vec<MenuEntry> = Vec::new();
    let ghost mut k: int = 0;
    while rest.len() > 0
        invariant
            given == entries@,
            0 <= k <= given.len(),
            rest@ == given.subrange(k, given.len() as int),
            with_enabled(entries_view(given), id@, enabled) == entries_view(out@) + with_enabled(
                entries_view(rest@),
                id@,
                enabled,
            ),
        decreases rest.len(),
    {
        let ghost before = out@;
        let ghost view = entries_view(rest@);
        let ghost tail = rest@.subrange(1, rest@.len() as int);
        proof {
            lemma_entries_view(rest@);
            lemma_entries_view(tail);
            assert(view.subrange(1, view.len() as int) =~= entries_view(tail));
        }
        let e = rest.remove(0);
        proof {
            assert(rest@ =~= tail);
            assert(e == given[k]);
            assert(view[0] == entry_view(e));
        }
        let next = match e {
            MenuEntry::Item(item) => {
                if same_text(item.id.as_str(), id) {
                    let set = MenuEntry::Item(MenuItem { id: item.id, text: item.text, enabled });
                    out.push(set);
                    proof {
                        lemma_entries_view_push(before, set);
                        lemma_entries_view_add(out@, rest@);
                        assert(entries_view(before) + (seq![entry_view(set)] + entries_view(tail)) =~= entries_view(
                            before,
                        ).push(entry_view(set)) + entries_view(tail));
                    }
                    out.append(&mut rest);
                    return out;
                }
                MenuEntry::Item(item)
            },
            MenuEntry::Check(item) => {
                if same_text(item.id.as_str(), id) {
                    let set = MenuEntry::Check(CheckItem { id: item.id, text: item.text, checked: item.checked, enabled });
                    out.push(set);
                    proof {
                        lemma_entries_view_push(before, set);
                        lemma_entries_view_add(out@, rest@);
                        assert(entries_view(before) + (seq![entry_view(set)] + entries_view(tail)) =~= entries_view(
                            before,
                        ).push(entry_view(set)) + entries_view(tail));
                    }
                    out.append(&mut rest);
                    return out;
                }
                MenuEntry::Check(item)
            },
            MenuEntry::Submenu(menu) => {
                if is_id(&menu.id, id) {
                    MenuEntry::Submenu(Submenu { id: menu.id, text: menu.text, enabled, entries: menu.entries })
                } else {
                    proof {
                        assert(decreases_to!(given => given[k]));
                        assert(decreases_to!(given[k] => menu));
                        assert(decreases_to!(menu => menu.entries));
                        assert(decreases_to!(menu.entries => menu.entries@));
                    }
                    let inner = set_enabled_in(menu.entries, id, enabled);
                    MenuEntry::Submenu(Submenu { id: menu.id, text: menu.text, enabled: menu.enabled, entries: inner })
                }
            },
            other => other,
        };
        proof {
            assert(with_enabled(view, id@, enabled) == seq![entry_view(next)] + with_enabled(
                entries_view(tail),
                id@,
                enabled,
            ));
        }
        out.push(next);
        proof {
            lemma_entries_view_push(before, next);
            assert(entries_view(before) + (seq![entry_view(next)] + with_enabled(entries_view(tail), id@, enabled))
                =~= entries_view(before).push(entry_view(next)) + with_enabled(entries_view(tail), id@, enabled));
            k = k + 1;
            assert(rest@ =~= given.subrange(k, given.len() as int));
        }
    }
    proof {
        assert(entries_view(rest@) =~= Seq::<EntryView>::empty());
        assert(entries_view(out@) + Seq::<EntryView>::empty() =~= entries_view(out@));
    }
    out
}

impl View for Menu {
    type V = Seq<EntryView>;

    /// The entries of the menu, as the characters of their texts.
    open spec fn view(&self) -> Seq<EntryView> {
        entries_view(self.entries@)
    }
}

impl Menu {
    /// A menu with the given entries.
    pub fn new(entries: Vec<MenuEntry>) -> (m: Menu)
        ensures
            m@ == entries_view(entries@),
    {
        Menu { entries }
    }

    /// Checks or unchecks the check item `id`, wherever it is in the menu.
    pub fn set_item_checked(&mut self, id: &str, checked: bool)
        ensures
            final(self)@ == with_checked(old(self)@, id@, checked),
    {
        let mut entries: Vec<MenuEntry> = Vec::new();
        std::mem::swap(&mut entries, &mut self.entries);
        self.entries = set_checked_in(entries, id, checked);
    }

    /// Enables or disables the item `id`, wherever it is in the menu.
    pub fn set_item_enabled(&mut self, id: &str, enabled: bool)
        ensures
            final(self)@ == with_enabled(old(self)@, id@, enabled),
    {
        let mut entries: Vec<MenuEntry> = Vec::new();
        std::mem::swap(&mut entries, &mut self.entries);
        self.entries = set_enabled_in(entries, id, enabled);
    }
}

impl Submenu {
    /// Checks or unchecks the check item `id`, wherever it is in the submenu.
    pub fn set_item_checked(&mut self, id: &str, checked: bool)
        ensures
            final(self).id == old(self).id,
            final(self).text == old(self).text,
            final(self).enabled == old(self).enabled,
            entries_view(final(self).entries@) == with_checked(entries_view(old(self).entries@), id@, checked),
    {
        let mut entries: Vec<MenuEntry> = Vec::new();
        std::mem::swap(&mut entries, &mut self.entries);
        self.entries = set_checked_in(entries, id, checked);
    }

    /// Enables or disables the submenu itself when its id is `id`; otherwise the item `id`,
    /// wherever it is in the submenu.
    pub fn set_item_enabled(&mut self, id: &str, enabled: bool)
        ensures
            final(self).id == old(self).id,
            final(self).text == old(self).text,
            option_view(old(self).id) == Some(id@) ==> final(self).enabled == enabled
                && final(self).entries@ == old(self).entries@,
            option_view(old(self).id) != Some(id@) ==> final(self).enabled == old(self).enabled
                && entries_view(final(self).entries@) == with_enabled(entries_view(old(self).entries@), id@, enabled),
    {
        if is_id(&self.id, id) {
            self.enabled = enabled;
        } else {
            let mut entries: Vec<MenuEntry> = Vec::new();
            std::mem::swap(&mut entries, &mut self.entries);
            self.entries = set_enabled_in(entries, id, enabled);
        }
    }
}

/// An entry with no items inside: an item, a check item or a predefined entry.
pub open spec fn is_flat(e: EntryView) -> bool {
    !(e is Submenu)
}

/// The id of an item or check item, if the entry is one.
pub open spec fn item_id_of(e: EntryView) -> Option<Seq<char>> {
    match e {
        EntryView::Item { id, .. } => Some(id),
        EntryView::Check { id, .. } => Some(id),
        _ => None,
    }
}

/// The entry with its enabled state set, if it is an item or a check item.
pub open spec fn enabled_as(e: EntryView, enabled: bool) -> EntryView {
    match e {
        EntryView::Item { id, text, .. } => EntryView::Item { id, text, enabled },
        EntryView::Check { id, text, checked, .. } => EntryView::Check { id, text, checked, enabled },
        _ => e,
    }
}

/// The entry with its check mark set, if it is a check item.
pub open spec fn checked_as(e: EntryView, checked: bool) -> EntryView {
    match e {
        EntryView::Check { id, text, enabled, .. } => EntryView::Check { id, text, checked, enabled },
        _ => e,
    }
}

/// In entries without submenus, enabling the item `id` sets its first item, at `k`, and
/// nothing else.
pub proof fn lemma_with_enabled_flat(s: Seq<EntryView>, id: Seq<char>, enabled: bool, k: int)
    requires
        0 <= k < s.len(),
        forall|i: int| 0 <= i < s.len() ==> is_flat(#[trigger] s[i]),
        item_id_of(s[k]) == Some(id),
        forall|i: int| 0 <= i < k ==> item_id_of(#[trigger] s[i]) != Some(id),
    ensures
        with_enabled(s, id, enabled) == s.update(k, enabled_as(s[k], enabled)),
    decreases k,
{
    let rest = s.subrange(1, s.len() as int);
    if k == 0 {
        assert(with_enabled(s, id, enabled) =~= s.update(0, enabled_as(s[0], enabled)));
    } else {
        assert(is_flat(s[0]) && item_id_of(s[0]) != Some(id));
        assert forall|i: int| 0 <= i < rest.len() implies is_flat(#[trigger] rest[i]) by {
            assert(rest[i] == s[i + 1]);
        }
        assert forall|i: int| 0 <= i < k - 1 implies item_id_of(#[trigger] rest[i]) != Some(id) by {
            assert(rest[i] == s[i + 1]);
        }
        lemma_with_enabled_flat(rest, id, enabled, k - 1);
        assert(with_enabled(s, id, enabled) == seq![s[0]] + with_enabled(rest, id, enabled));
        assert(seq![s[0]] + rest.update(k - 1, enabled_as(s[k], enabled)) =~= s.update(k, enabled_as(s[k], enabled)));
    }
}

/// In entries without submenus, checking the check item `id` sets its first check item, at
/// `k`, and nothing else.
pub proof fn lemma_with_checked_flat(s: Seq<EntryView>, id: Seq<char>, checked: bool, k: int)
    requires
        0 <= k < s.len(),
        forall|i: int| 0 <= i < s.len() ==> is_flat(#[trigger] s[i]),
        s[k] is Check && item_id_of(s[k]) == Some(id),
        forall|i: int| 0 <= i < k ==> !(#[trigger] s[i] is Check && item_id_of(s[i]) == Some(id)),
    ensures
        with_checked(s, id, checked) == s.update(k, checked_as(s[k], checked)),
    decreases k,
{
    let rest = s.subrange(1, s.len() as int);
    if k == 0 {
        assert(with_checked(s, id, checked) =~= s.update(0, checked_as(s[0], checked)));
    } else {
        assert(is_flat(s[0]));
        assert forall|i: int| 0 <= i < rest.len() implies is_flat(#[trigger] rest[i]) by {
            assert(rest[i] == s[i + 1]);
        }
        assert forall|i: int| 0 <= i < k - 1 implies !(#[trigger] rest[i] is Check && item_id_of(rest[i]) == Some(id)) by {
            assert(rest[i] == s[i + 1]);
        }
        lemma_with_checked_flat(rest, id, checked, k - 1);
        assert(with_checked(s, id, checked) == seq![s[0]] + with_checked(rest, id, checked));
        assert(seq![s[0]] + rest.update(k - 1, checked_as(s[k], checked)) =~= s.update(k, checked_as(s[k], checked)));
    }
}

/// Entries without submenus and without a check item `id` are passed over when the check
/// item `id` is checked or unchecked.
pub proof fn lemma_with_checked_skip(a: Seq<EntryView>, b: Seq<EntryView>, id: Seq<char>, checked: bool)
    requires
        forall|i: int| 0 <= i < a.len() ==> is_flat(#[trigger] a[i]),
        forall|i: int| 0 <= i < a.len() ==> !(#[trigger] a[i] is Check && item_id_of(a[i]) == Some(id)),
    ensures
        with_checked(a + b, id, checked) == a + with_checked(b, id, checked),
    decreases a.len(),
{
    if a.len() == 0 {
        assert(a + b =~= b);
        assert(a + with_checked(b, id, checked) =~= with_checked(b, id, checked));
    } else {
        let rest = a.subrange(1, a.len() as int);
        assert forall|i: int| 0 <= i < rest.len() implies is_flat(#[trigger] rest[i]) by {
            assert(rest[i] == a[i + 1]);
        }
        assert forall|i: int| 0 <= i < rest.len() implies !(#[trigger] rest[i] is Check && item_id_of(rest[i]) == Some(id)) by {
            assert(rest[i] == a[i + 1]);
        }
        lemma_with_checked_skip(rest, b, id, checked);
        assert((a + b).subrange(1, (a + b).len() as int) =~= rest + b);
        assert((a + b)[0] == a[0]);
        assert(is_flat(a[0]));
        assert(with_checked(a + b, id, checked) == seq![a[0]] + with_checked(rest + b, id, checked));
        assert(seq![a[0]] + (rest + with_checked(b, id, checked)) =~= a + with_checked(b, id, checked));
    }
}

/// An enabled item.
pub open spec fn item_view(id: Seq<char>, text: Seq<char>) -> EntryView {
    EntryView::Item { id, text, enabled: true }
}

/// An enabled check item.
pub open spec fn check_view(id: Seq<char>, text: Seq<char>, checked: bool) -> EntryView {
    EntryView::Check { id, text, checked, enabled: true }
}

/// An enabled submenu without an id of its own.
pub open spec fn submenu_view(text: Seq<char>, entries: Seq<EntryView>) -> EntryView {
    EntryView::Submenu { id: None, text, enabled: true, entries }
}

impl MenuEntry {
    /// An enabled item.
    pub fn item(id: String, text: &str) -> (e: MenuEntry)
        ensures
            entry_view(e) == item_view(id@, text@),
    {
        MenuEntry::Item(MenuItem { id, text: owned(text), enabled: true })
    }

    /// An enabled check item.
    pub fn check(id: String, text: &str, checked: bool) -> (e: MenuEntry)
        ensures
            entry_view(e) == check_view(id@, text@, checked),
    {
        MenuEntry::Check(CheckItem { id, text: owned(text), checked, enabled: true })
    }

    /// An enabled submenu with the given entries.
    pub fn submenu(text: &str, entries: Vec<MenuEntry>) -> (e: MenuEntry)
        ensures
            entry_view(e) == submenu_view(text@, entries_view(entries@)),
    {
        MenuEntry::Submenu(Submenu { id: None, text: owned(text), enabled: true, entries })
    }

    /// A separator.
    pub fn separator() -> (e: MenuEntry)
        ensures
            entry_view(e) == EntryView::Separator,
    {
        MenuEntry::Predefined(Predefined::Separator)
    }

    /// The entry that quits the application.
    pub fn quit() -> (e: MenuEntry)
        ensures
            entry_view(e) == EntryView::Quit,
    {
        MenuEntry::Predefined(Predefined::Quit)
    }
}

/// Adds an entry at the end of `entries`.
pub fn push_entry(entries: &mut Vec<MenuEntry>, e: MenuEntry)
    ensures
        entries_view(final(entries)@) == entries_view(old(entries)@).push(entry_view(e)),
{
    proof {
        lemma_entries_view_push(entries@, e);
    }
    entries.push(e);
}

} // verus!
