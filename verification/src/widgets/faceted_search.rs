//! Faceted search bar: a row of filter buttons, each with a dropdown of options.
//!
//! Each facet is one filter dimension. A facet whose selection differs from
//! its default is "filtered". The bar tracks which button has focus, whether
//! its dropdown is open and which option of the dropdown has focus.

use vstd::prelude::*;
use crate::keys::KeyCode;
use crate::text::{concat, str_eq};

verus! {

/// The string contents of a list of strings.
pub open spec fn strings_view(v: Seq<String>) -> Seq<Seq<char>> {
    v.map_values(|s: String| s@)
}

/// `i` is the index of the first element of `v` equal to `x`.
pub open spec fn is_first_index(v: Seq<Seq<char>>, x: Seq<char>, i: int) -> bool {
    0 <= i < v.len() && v[i] == x && forall|j: int| 0 <= j < i ==> v[j] != x
}

/// No element of `v` equals `x`.
pub open spec fn absent(v: Seq<Seq<char>>, x: Seq<char>) -> bool {
    forall|j: int| 0 <= j < v.len() ==> v[j] != x
}

/// Finds the first option equal to `value`.
pub fn position_of(options: &Vec<String>, value: &str) -> (r: Option<usize>)
    ensures
        r matches Some(i) ==> is_first_index(strings_view(options@), value@, i as int),
        r is None ==> absent(strings_view(options@), value@),
{
    let mut i: usize = 0;
    while i < options.len()
        invariant
            i <= options.len(),
            forall|j: int| 0 <= j < i ==> strings_view(options@)[j] != value@,
        decreases options.len() - i,
    {
        if str_eq(options[i].as_str(), value) {
            return Some(i);
        }
        i = i + 1;
    }
    None
}

/// One filter dimension with its options.
pub struct Facet {
    /// Display name: the selected option.
    name: String,
    /// Icon for visual identification.
    icon: &'static str,
    /// All available options.
    options: Vec<String>,
    /// Selected option.
    selected_index: usize,
    /// Default option; a facet is filtered when its selection differs from it.
    default_index: usize,
}

impl Facet {
    /// The options.
    pub closed spec fn options_view(&self) -> Seq<Seq<char>> {
        strings_view(self.options@)
    }

    /// The selected option's index.
    pub closed spec fn selected(&self) -> nat {
        self.selected_index as nat
    }

    /// The default option's index.
    pub closed spec fn default(&self) -> nat {
        self.default_index as nat
    }

    /// The display name.
    pub closed spec fn name_view(&self) -> Seq<char> {
        self.name@
    }

    /// The icon.
    pub closed spec fn icon_view(&self) -> Seq<char> {
        self.icon@
    }

    /// Well-formed: there are options, the selection is one of them and the
    /// name shows it.
    pub open spec fn wf(&self) -> bool {
        &&& self.options_view().len() > 0
        &&& self.selected() < self.options_view().len()
        &&& self.name_view() == self.options_view()[self.selected() as int]
    }

    /// Whether the default option is one of the options.
    pub open spec fn default_in_range(&self) -> bool {
        self.default() < self.options_view().len()
    }

    /// Whether the selection differs from the default.
    pub open spec fn spec_is_filtered(&self) -> bool {
        self.selected() != self.default()
    }

    /// The facet with the selection moved to `index` and the name following it.
    pub open spec fn with_selection(self, other: Facet, index: nat) -> bool {
        &&& other.options_view() == self.options_view()
        &&& other.icon_view() == self.icon_view()
        &&& other.default() == self.default()
        &&& other.selected() == index
        &&& other.wf()
    }

    /// Creates a facet with an icon, its options and the default option,
    /// which starts selected.
    pub fn new(icon: &'static str, options: Vec<String>, default_index: usize) -> (r: Self)
        requires
            options.len() > 0,
            default_index < options.len(),
        ensures
            r.wf(),
            r.default_in_range(),
            r.icon_view() == icon@,
            r.options_view() == strings_view(options@),
            r.selected() == default_index,
            r.default() == default_index,
    {
        let name = options[default_index].clone();
        Facet { name, icon, options, selected_index: default_index, default_index }
    }

    /// Whether a non-default option is selected.
    pub fn is_filtered(&self) -> (r: bool)
        ensures
            r == self.spec_is_filtered(),
    {
        self.selected_index != self.default_index
    }

    /// The selected option.
    pub fn selected_option(&self) -> (r: &str)
        requires
            self.wf(),
        ensures
            r@ == self.options_view()[self.selected() as int],
    {
        self.options[self.selected_index].as_str()
    }

    /// The display name.
    pub fn name(&self) -> (r: &str)
        ensures
            r@ == self.name_view(),
    {
        self.name.as_str()
    }

    /// The icon.
    pub fn icon(&self) -> (r: &'static str)
        ensures
            r@ == self.icon_view(),
    {
        self.icon
    }

    /// The options.
    pub fn options(&self) -> (r: &Vec<String>)
        ensures
            strings_view(r@) == self.options_view(),
    {
        &self.options
    }

    /// The selected option's index.
    pub fn selected_index(&self) -> (r: usize)
        ensures
            r == self.selected(),
    {
        self.selected_index
    }

    /// The default option's index.
    pub fn default_index(&self) -> (r: usize)
        ensures
            r == self.default(),
    {
        self.default_index
    }

    /// Makes the name show the selected option.
    fn update_name(&mut self)
        requires
            old(self).selected() < old(self).options_view().len(),
        ensures
            old(self).with_selection(*final(self), old(self).selected()),
    {
        self.name = self.options[self.selected_index].clone();
    }

    /// Selects the option at `index`.
    pub fn set_selected(&mut self, index: usize)
        requires
            index < old(self).options_view().len(),
        ensures
            old(self).with_selection(*final(self), index as nat),
    {
        self.selected_index = index;
        self.update_name();
    }

    /// Selects the default option again.
    pub fn reset(&mut self)
        requires
            old(self).default_in_range(),
        ensures
            old(self).with_selection(*final(self), old(self).default()),
            !final(self).spec_is_filtered(),
    {
        self.selected_index = self.default_index;
        self.update_name();
    }

    /// Replaces the options and selects `index` among them.
    fn replace_options(&mut self, options: Vec<String>, index: usize)
        requires
            index < options.len(),
        ensures
            final(self).options_view() == strings_view(options@),
            final(self).icon_view() == old(self).icon_view(),
            final(self).default() == old(self).default(),
            final(self).selected() == index,
            final(self).wf(),
    {
        self.options = options;
        self.selected_index = index;
        self.update_name();
    }

    /// Adds `value` as the second option, after the first one.
    fn insert_second(&mut self, value: String)
        requires
            old(self).options_view().len() > 0,
        ensures
            final(self).options_view() == old(self).options_view().insert(1, value@),
            final(self).icon_view() == old(self).icon_view(),
            final(self).default() == old(self).default(),
            final(self).selected() == old(self).selected(),
            final(self).name_view() == old(self).name_view(),
    {
        let ghost before = self.options@;
        self.options.insert(1, value);
        assert(strings_view(self.options@) =~= strings_view(before).insert(1, value@));
    }
}

/// Number of facets in `s` with a non-default selection.
pub open spec fn count_filtered(s: Seq<Facet>) -> nat
    decreases s.len(),
{
    if s.len() == 0 {
        0
    } else {
        count_filtered(s.drop_last()) + if s.last().spec_is_filtered() {
            1nat
        } else {
            0nat
        }
    }
}

/// The filter label of each filtered facet of `s`, in order: icon, ": ", name.
pub open spec fn active_filter_labels(s: Seq<Facet>) -> Seq<Seq<char>>
    decreases s.len(),
{
    if s.len() == 0 {
        seq![]
    } else {
        let rest = active_filter_labels(s.drop_last());
        if s.last().spec_is_filtered() {
            rest.push(s.last().icon_view() + ": "@ + s.last().name_view())
        } else {
            rest
        }
    }
}

/// A row of filter buttons with dropdowns.
pub struct FacetedSearchBar {
    facets: Vec<Facet>,
    /// Focused filter button.
    active_btn_idx: usize,
    /// Whether the focused button's dropdown is open.
    dropdown_open: bool,
    /// Focused option in the open dropdown.
    dropdown_focus_idx: usize,
}

impl FacetedSearchBar {
    /// The facets.
    pub closed spec fn facets_view(&self) -> Seq<Facet> {
        self.facets@
    }

    /// The focused button.
    pub closed spec fn active(&self) -> nat {
        self.active_btn_idx as nat
    }

    /// Whether the dropdown is open.
    pub closed spec fn open(&self) -> bool {
        self.dropdown_open
    }

    /// The focused dropdown option.
    pub closed spec fn focus(&self) -> nat {
        self.dropdown_focus_idx as nat
    }

    /// Well-formed: there is a facet, every facet is well formed and the
    /// focused button is one of them.
    pub open spec fn wf(&self) -> bool {
        &&& self.facets_view().len() > 0
        &&& self.active() < self.facets_view().len()
        &&& forall|i: int| 0 <= i < self.facets_view().len() ==> #[trigger] self.facets_view()[i].wf()
    }

    /// Every facet's default option is one of its options.
    pub open spec fn defaults_in_range(&self) -> bool {
        forall|i: int|
            0 <= i < self.facets_view().len() ==> #[trigger] self.facets_view()[i].default_in_range()
    }

    /// Whether `key` can be handled: confirming an open dropdown needs its
    /// focused option to exist.
    pub open spec fn accepts_key(&self, key: KeyCode) -> bool {
        (key == KeyCode::Enter || key == KeyCode::Char(' ')) && self.open() ==> self.focus()
            < self.facets_view()[self.active() as int].options_view().len()
    }

    /// The selection of each facet.
    pub open spec fn selections(&self) -> Seq<nat> {
        self.facets_view().map_values(|f: Facet| f.selected())
    }

    /// Whether some facet has a non-default selection.
    pub open spec fn spec_is_filtered(&self) -> bool {
        exists|i: int| 0 <= i < self.facets_view().len() && #[trigger] self.facets_view()[i].spec_is_filtered()
    }

    /// `other` is `self` with facet `i` replaced by `f`.
    pub open spec fn with_facet(self, other: FacetedSearchBar, i: int, f: Facet) -> bool {
        &&& other.facets_view() == self.facets_view().update(i, f)
        &&& other.active() == self.active()
        &&& other.open() == self.open()
        &&& other.focus() == self.focus()
    }

    /// `other` has the same facets, focus and dropdown state as `self`.
    pub open spec fn same_as(self, other: FacetedSearchBar) -> bool {
        &&& other.facets_view() == self.facets_view()
        &&& other.active() == self.active()
        &&& other.open() == self.open()
        &&& other.focus() == self.focus()
    }

    /// Whether `key` does something: moving between buttons while no
    /// dropdown is open, opening or confirming with Enter or space, moving
    /// in an open dropdown, or closing it with Esc.
    pub open spec fn key_handled(self, key: KeyCode) -> bool {
        let len = self.facets_view().len();
        let active = self.active();
        let opts = self.facets_view()[active as int].options_view().len();
        match key {
            KeyCode::Left => !self.open() && active > 0,
            KeyCode::Right | KeyCode::Tab => !self.open() && active + 1 < len,
            KeyCode::Enter | KeyCode::Char(' ') => true,
            KeyCode::Up => self.open() && self.focus() > 0,
            KeyCode::Down => self.open() && self.focus() + 1 < opts,
            KeyCode::Esc => self.open(),
            _ => false,
        }
    }

    /// `n` is the bar after `key`: a key that does nothing leaves the bar as
    /// it was.
    pub open spec fn key_step(self, n: FacetedSearchBar, key: KeyCode) -> bool {
        let o = self;
        let active = o.active();
        if !o.key_handled(key) {
            n.same_as(o)
        } else {
            match key {
                KeyCode::Left => n.active() == active - 1 && n.facets_view() == o.facets_view()
                    && n.open() == o.open() && n.focus() == o.focus(),
                KeyCode::Right | KeyCode::Tab => n.active() == active + 1 && n.facets_view() == o.facets_view()
                    && n.open() == o.open() && n.focus() == o.focus(),
                KeyCode::Enter | KeyCode::Char(' ') => n.active() == active && if !o.open() {
                    n.open() && n.focus() == o.facets_view()[active as int].selected()
                        && n.facets_view() == o.facets_view()
                } else {
                    !n.open() && n.focus() == o.focus() && o.facets_view()[active as int].with_selection(
                        n.facets_view()[active as int],
                        o.focus(),
                    ) && n.facets_view() == o.facets_view().update(active as int, n.facets_view()[active as int])
                },
                KeyCode::Up => n.focus() == o.focus() - 1 && n.facets_view() == o.facets_view()
                    && n.open() == o.open() && n.active() == o.active(),
                KeyCode::Down => n.focus() == o.focus() + 1 && n.facets_view() == o.facets_view()
                    && n.open() == o.open() && n.active() == o.active(),
                _ => !n.open() && n.focus() == o.focus() && n.facets_view() == o.facets_view()
                    && n.active() == o.active(),
            }
        }
    }

    /// Creates a bar over the given facets, the first button focused and no
    /// dropdown open.
    pub fn new(facets: Vec<Facet>) -> (r: Self)
        requires
            facets.len() > 0,
            forall|i: int| 0 <= i < facets.len() ==> #[trigger] facets@[i].wf(),
        ensures
            r.wf(),
            r.facets_view() == facets@,
            r.active() == 0,
            !r.open(),
            r.focus() == 0,
    {
        FacetedSearchBar { facets, active_btn_idx: 0, dropdown_open: false, dropdown_focus_idx: 0 }
    }

    /// The facets.
    pub fn facets(&self) -> (r: &Vec<Facet>)
        ensures
            r@ == self.facets_view(),
    {
        &self.facets
    }

    /// The focused button.
    pub fn active_button(&self) -> (r: usize)
        ensures
            r == self.active(),
    {
        self.active_btn_idx
    }

    /// The focused dropdown option.
    pub fn dropdown_focus(&self) -> (r: usize)
        ensures
            r == self.focus(),
    {
        self.dropdown_focus_idx
    }

    /// Handles a key: Left/Right/Tab move between buttons, Enter/Space opens
    /// the dropdown or confirms its focused option, Up/Down move in the
    /// dropdown and Esc closes it. Returns whether the key was used.
    pub fn handle_key(&mut self, key: KeyCode) -> (handled: bool)
        requires
            old(self).wf(),
            old(self).accepts_key(key),
        ensures
            final(self).wf(),
            final(self).defaults_in_range() == old(self).defaults_in_range(),
            handled == old(self).key_handled(key),
            old(self).key_step(*final(self), key),
    {
        match key {
            KeyCode::Left => {
                if !self.dropdown_open && self.active_btn_idx > 0 {
                    self.active_btn_idx = self.active_btn_idx - 1;
                    return true;
                }
            },
            KeyCode::Right | KeyCode::Tab => {
                if !self.dropdown_open && self.active_btn_idx < self.facets.len() - 1 {
                    self.active_btn_idx = self.active_btn_idx + 1;
                    return true;
                }
            },
            KeyCode::Enter | KeyCode::Char(' ') => {
                if !self.dropdown_open {
                    self.dropdown_open = true;
                    self.dropdown_focus_idx = self.facets[self.active_btn_idx].selected_index;
                } else {
                    let ghost before = self.facets@;
                    let idx = self.active_btn_idx;
                    let focus = self.dropdown_focus_idx;
                    self.facets[idx].set_selected(focus);
                    assert(self.facets@ == before.update(idx as int, self.facets@[idx as int]));
                    assert forall|i: int| 0 <= i < self.facets@.len() implies #[trigger] self.facets@[i].wf() by {
                        if i != idx {
                            assert(self.facets@[i] == before[i]);
                        }
                    }
                    assert forall|i: int| 0 <= i < self.facets@.len() && before[i].default_in_range()
                        implies #[trigger] self.facets@[i].default_in_range() by {
                        if i != idx {
                            assert(self.facets@[i] == before[i]);
                        }
                    }
                    assert forall|i: int| 0 <= i < self.facets@.len() && self.facets@[i].default_in_range()
                        implies #[trigger] before[i].default_in_range() by {
                        if i != idx {
                            assert(self.facets@[i] == before[i]);
                        }
                    }
                    self.dropdown_open = false;
                }
                return true;
            },
            KeyCode::Up => {
                if self.dropdown_open && self.dropdown_focus_idx > 0 {
                    self.dropdown_focus_idx = self.dropdown_focus_idx - 1;
                    return true;
                }
            },
            KeyCode::Down => {
                if self.dropdown_open {
                    assert(self.facets_view()[self.active_btn_idx as int].wf());
                    assert(self.facets@[self.active_btn_idx as int].options@.len()
                        == self.facets@[self.active_btn_idx as int].options_view().len());
                    let max_idx = self.facets[self.active_btn_idx].options.len() - 1;
                    if self.dropdown_focus_idx < max_idx {
                        self.dropdown_focus_idx = self.dropdown_focus_idx + 1;
                        return true;
                    }
                }
            },
            KeyCode::Esc => {
                if self.dropdown_open {
                    self.dropdown_open = false;
                    return true;
                }
            },
            _ => {},
        }
        false
    }

    /// The selected option of facet `facet_idx`, if there is such a facet.
    pub fn get_filter_value(&self, facet_idx: usize) -> (r: Option<&str>)
        requires
            self.wf(),
        ensures
            facet_idx < self.facets_view().len() ==> (r matches Some(v) && v@
                == self.facets_view()[facet_idx as int].options_view()[self.facets_view()[facet_idx as int].selected() as int]),
            facet_idx >= self.facets_view().len() ==> r is None,
    {
        if facet_idx < self.facets.len() {
            assert(self.facets_view()[facet_idx as int].wf());
            Some(self.facets[facet_idx].selected_option())
        } else {
            None
        }
    }

    /// Whether any facet has a non-default selection.
    pub fn is_filtered(&self) -> (r: bool)
        ensures
            r == self.spec_is_filtered(),
    {
        let mut i: usize = 0;
        while i < self.facets.len()
            invariant
                i <= self.facets@.len(),
                forall|j: int| 0 <= j < i ==> !(#[trigger] self.facets_view()[j]).spec_is_filtered(),
            decreases self.facets@.len() - i,
        {
            if self.facets[i].is_filtered() {
                assert(self.facets_view()[i as int].spec_is_filtered());
                return true;
            }
            i = i + 1;
        }
        false
    }

    /// Selects every facet's default option.
    pub fn reset_filters(&mut self)
        requires
            old(self).wf(),
            old(self).defaults_in_range(),
        ensures
            final(self).wf(),
            final(self).defaults_in_range(),
            final(self).active() == old(self).active(),
            final(self).open() == old(self).open(),
            final(self).focus() == old(self).focus(),
            final(self).facets_view().len() == old(self).facets_view().len(),
            forall|i: int| 0 <= i < old(self).facets_view().len() ==> old(self).facets_view()[i].with_selection(
                #[trigger] final(self).facets_view()[i],
                old(self).facets_view()[i].default(),
            ),
    {
        let ghost before = self.facets@;
        let ghost old_self = *self;
        let mut i: usize = 0;
        while i < self.facets.len()
            invariant
                i <= self.facets@.len(),
                self.facets@.len() == before.len(),
                self.active_btn_idx == old_self.active_btn_idx,
                self.dropdown_open == old_self.dropdown_open,
                self.dropdown_focus_idx == old_self.dropdown_focus_idx,
                old_self.wf(),
                old_self.facets@ == before,
                forall|j: int| 0 <= j < i ==> before[j].with_selection(#[trigger] self.facets@[j], before[j].default()),
                forall|j: int| i <= j < before.len() ==> #[trigger] self.facets@[j] == before[j],
                forall|j: int| 0 <= j < before.len() ==> (#[trigger] before[j]).wf() && before[j].default_in_range(),
            decreases before.len() - i,
        {
            self.facets[i].reset();
            i = i + 1;
        }
        assert forall|j: int| 0 <= j < self.facets_view().len() implies #[trigger] self.facets_view()[j].wf()
            && self.facets_view()[j].default_in_range() by {
            assert(before[j].with_selection(self.facets@[j], before[j].default()));
        }
    }

    /// Number of facets with a non-default selection.
    pub fn get_active_filter_count(&self) -> (r: usize)
        ensures
            r == count_filtered(self.facets_view()),
    {
        let mut count: usize = 0;
        let mut i: usize = 0;
        while i < self.facets.len()
            invariant
                i <= self.facets@.len(),
                count == count_filtered(self.facets_view().take(i as int)),
                count <= i,
            decreases self.facets@.len() - i,
        {
            assert(self.facets_view().take(i + 1).drop_last() == self.facets_view().take(i as int));
            if self.facets[i].is_filtered() {
                count = count + 1;
            }
            i = i + 1;
        }
        assert(self.facets_view().take(i as int) == self.facets_view());
        count
    }

    /// A label for each filtered facet, in order: its icon, ": " and its name.
    pub fn get_active_filters(&self) -> (r: Vec<String>)
        ensures
            strings_view(r@) == active_filter_labels(self.facets_view()),
    {
        let mut labels: Vec<String> = Vec::new();
        let mut i: usize = 0;
        while i < self.facets.len()
            invariant
                i <= self.facets@.len(),
                strings_view(labels@) == active_filter_labels(self.facets_view().take(i as int)),
            decreases self.facets@.len() - i,
        {
            assert(self.facets_view().take(i + 1).drop_last() == self.facets_view().take(i as int));
            if self.facets[i].is_filtered() {
                let head = concat(self.facets[i].icon(), ": ");
                let label = concat(head.as_str(), self.facets[i].name());
                let ghost old_labels = labels@;
                labels.push(label);
                assert(strings_view(labels@) =~= strings_view(old_labels).push(label@));
            }
            i = i + 1;
        }
        assert(self.facets_view().take(i as int) == self.facets_view());
        labels
    }

    /// The selection of facet `facet_index`, or 0 when there is no such facet.
    pub fn get_facet_selection(&self, facet_index: usize) -> (r: usize)
        ensures
            facet_index < self.facets_view().len() ==> r == self.facets_view()[facet_index as int].selected(),
            facet_index >= self.facets_view().len() ==> r == 0,
    {
        if facet_index < self.facets.len() {
            self.facets[facet_index].selected_index
        } else {
            0
        }
    }

    /// Selects option `value` of facet `facet_index` when both exist;
    /// otherwise changes nothing.
    pub fn set_facet_selection(&mut self, facet_index: usize, value: usize)
        requires
            old(self).wf(),
        ensures
            final(self).wf(),
            final(self).defaults_in_range() == old(self).defaults_in_range(),
            if facet_index < old(self).facets_view().len() && value < old(self).facets_view()[facet_index as int].options_view().len() {
                old(self).facets_view()[facet_index as int].with_selection(final(self).facets_view()[facet_index as int], value as nat)
                    && old(self).with_facet(*final(self), facet_index as int, final(self).facets_view()[facet_index as int])
            } else {
                final(self).same_as(*old(self))
            },
    {
        if facet_index < self.facets.len() {
            assert(self.facets_view()[facet_index as int].wf());
            assert(self.facets@[facet_index as int].options@.len() == self.facets_view()[facet_index as int].options_view().len());
            if value < self.facets[facet_index].options.len() {
                self.select_in(facet_index, value);
            }
        }
    }

    /// Selects option `value` of facet `index`.
    fn select_in(&mut self, index: usize, value: usize)
        requires
            old(self).wf(),
            index < old(self).facets_view().len(),
            value < old(self).facets_view()[index as int].options_view().len(),
        ensures
            final(self).wf(),
            final(self).defaults_in_range() == old(self).defaults_in_range(),
            old(self).facets_view()[index as int].with_selection(final(self).facets_view()[index as int], value as nat),
            old(self).with_facet(*final(self), index as int, final(self).facets_view()[index as int]),
    {
        let ghost before = self.facets@;
        self.facets[index].set_selected(value);
        proof {
            assert(self.facets@ == before.update(index as int, self.facets@[index as int]));
            assert forall|i: int| 0 <= i < self.facets@.len() implies #[trigger] self.facets_view()[i].wf() by {
                if i != index {
                    assert(self.facets@[i] == before[i]);
                    assert(before[i].wf());
                }
            }
            assert forall|i: int| 0 <= i < self.facets@.len() && before[i].default_in_range()
                implies #[trigger] self.facets@[i].default_in_range() by {
                if i != index {
                    assert(self.facets@[i] == before[i]);
                }
            }
            assert forall|i: int| 0 <= i < self.facets@.len() && self.facets@[i].default_in_range()
                implies #[trigger] before[i].default_in_range() by {
                if i != index {
                    assert(self.facets@[i] == before[i]);
                }
            }
        }
    }

    /// Selects the first option of facet `facet_index` equal to `value`.
    /// Returns whether such an option was found; if not, nothing changes.
    pub fn set_facet_selection_by_value(&mut self, facet_index: usize, value: &str) -> (found: bool)
        requires
            old(self).wf(),
        ensures
            final(self).wf(),
            final(self).defaults_in_range() == old(self).defaults_in_range(),
            found == (facet_index < old(self).facets_view().len() && !absent(
                old(self).facets_view()[facet_index as int].options_view(),
                value@,
            )),
            found ==> exists|k: int|
                is_first_index(old(self).facets_view()[facet_index as int].options_view(), value@, k)
                    && old(self).facets_view()[facet_index as int].with_selection(
                    final(self).facets_view()[facet_index as int],
                    k as nat,
                ) && old(self).with_facet(*final(self), facet_index as int, final(self).facets_view()[facet_index as int]),
            !found ==> final(self).same_as(*old(self)),
    {
        if facet_index < self.facets.len() {
            match position_of(&self.facets[facet_index].options, value) {
                Some(idx) => {
                    assert(strings_view(self.facets@[facet_index as int].options@) == self.facets_view()[facet_index as int].options_view());
                    self.select_in(facet_index, idx);
                    return true;
                },
                None => {},
            }
        }
        false
    }

    /// Selects option `value` of facet `facet_index`, first inserting it as
    /// the second option when no option equals it. Nothing changes when there
    /// is no such facet.
    pub fn add_and_select_option(&mut self, facet_index: usize, value: String)
        requires
            old(self).wf(),
        ensures
            final(self).wf(),
            final(self).active() == old(self).active(),
            final(self).open() == old(self).open(),
            final(self).focus() == old(self).focus(),
            final(self).facets_view().len() == old(self).facets_view().len(),
            forall|i: int| 0 <= i < old(self).facets_view().len() && i != facet_index ==> #[trigger] final(self).facets_view()[i] == old(self).facets_view()[i],
            facet_index < old(self).facets_view().len() ==> {
                let f = old(self).facets_view()[facet_index as int];
                let g = final(self).facets_view()[facet_index as int];
                &&& g.icon_view() == f.icon_view()
                &&& g.default() == f.default()
                &&& if absent(f.options_view(), value@) {
                    g.options_view() == f.options_view().insert(1, value@) && g.selected() == 1
                } else {
                    g.options_view() == f.options_view() && is_first_index(f.options_view(), value@, g.selected() as int)
                }
            },
            facet_index >= old(self).facets_view().len() ==> final(self).same_as(*old(self)),
    {
        if facet_index < self.facets.len() {
            let ghost before = self.facets@;
            assert(self.facets_view()[facet_index as int].wf());
            match position_of(&self.facets[facet_index].options, value.as_str()) {
                Some(existing) => {
                    assert(strings_view(self.facets@[facet_index as int].options@) == self.facets_view()[facet_index as int].options_view());
                    self.select_in(facet_index, existing);
                },
                None => {
                    assert(strings_view(self.facets@[facet_index as int].options@) == self.facets_view()[facet_index as int].options_view());
                    self.facets[facet_index].insert_second(value);
                    self.facets[facet_index].set_selected(1);
                    proof {
                        assert(self.facets@ == before.update(facet_index as int, self.facets@[facet_index as int]));
                        assert forall|i: int| 0 <= i < self.facets@.len() implies #[trigger] self.facets_view()[i].wf() by {
                            if i != facet_index {
                                assert(self.facets@[i] == before[i]);
                                assert(before[i].wf());
                            }
                        }
                    }
                },
            }
        }
    }

    /// Whether the dropdown is open.
    pub fn is_active(&self) -> (r: bool)
        ensures
            r == self.open(),
    {
        self.dropdown_open
    }

    /// Replaces the options of facet `facet_idx`, keeping the selected option
    /// when it is among the new ones (its first occurrence) and otherwise
    /// selecting the default index, clamped to the last option. Returns
    /// whether the facet exists; nothing changes when it does not.
    pub fn update_facet_options(&mut self, facet_idx: usize, new_options: Vec<String>) -> (updated: bool)
        requires
            old(self).wf(),
            facet_idx < old(self).facets_view().len() ==> new_options.len() > 0,
        ensures
            final(self).wf(),
            updated == (facet_idx < old(self).facets_view().len()),
            !updated ==> final(self).same_as(*old(self)),
            updated ==> {
                let f = old(self).facets_view()[facet_idx as int];
                let g = final(self).facets_view()[facet_idx as int];
                let current = f.options_view()[f.selected() as int];
                let opts = strings_view(new_options@);
                &&& old(self).with_facet(*final(self), facet_idx as int, g)
                &&& g.options_view() == opts
                &&& g.icon_view() == f.icon_view()
                &&& g.default() == f.default()
                &&& if absent(opts, current) {
                    g.selected() == if f.default() < opts.len() { f.default() } else { (opts.len() - 1) as nat }
                } else {
                    is_first_index(opts, current, g.selected() as int)
                }
            },
    {
        if facet_idx < self.facets.len() {
            let ghost before = self.facets@;
            assert(self.facets_view()[facet_idx as int].wf());
            let current = self.facets[facet_idx].selected_option().to_owned();
            let pos = position_of(&new_options, current.as_str());
            let new_selected = match pos {
                Some(p) => p,
                None => self.facets[facet_idx].default_index,
            };
            let last = new_options.len() - 1;
            let clamped = if new_selected < last { new_selected } else { last };
            self.facets[facet_idx].replace_options(new_options, clamped);
            proof {
                assert(self.facets@ == before.update(facet_idx as int, self.facets@[facet_idx as int]));
                assert forall|i: int| 0 <= i < self.facets@.len() implies #[trigger] self.facets_view()[i].wf() by {
                    if i != facet_idx {
                        assert(self.facets@[i] == before[i]);
                        assert(before[i].wf());
                    }
                }
            }
            true
        } else {
            false
        }
    }

    /// The selection of every facet, in order.
    pub fn get_filter_state(&self) -> (r: Vec<usize>)
        ensures
            r@.len() == self.facets_view().len(),
            forall|i: int| 0 <= i < r@.len() ==> r@[i] == #[trigger] self.facets_view()[i].selected(),
    {
        let mut state: Vec<usize> = Vec::new();
        let mut i: usize = 0;
        while i < self.facets.len()
            invariant
                i <= self.facets@.len(),
                state@.len() == i,
                forall|j: int| 0 <= j < i ==> state@[j] == #[trigger] self.facets_view()[j].selected(),
            decreases self.facets@.len() - i,
        {
            state.push(self.facets[i].selected_index);
            i = i + 1;
        }
        state
    }

    /// Whether `state` holds one valid selection per facet.
    pub open spec fn valid_state(&self, state: Seq<usize>) -> bool {
        &&& state.len() == self.facets_view().len()
        &&& forall|i: int| 0 <= i < state.len() ==> #[trigger] state[i] < self.facets_view()[i].options_view().len()
    }

    /// Applies a saved selection to every facet. Refused, changing nothing,
    /// when the number of selections differs from the number of facets or a
    /// selection is not one of its facet's options.
    pub fn restore_filter_state(&mut self, state: &[usize]) -> (restored: bool)
        requires
            old(self).wf(),
        ensures
            final(self).wf(),
            final(self).defaults_in_range() == old(self).defaults_in_range(),
            restored == old(self).valid_state(state@),
            !restored ==> final(self).same_as(*old(self)),
            restored ==> {
                &&& final(self).active() == old(self).active()
                &&& final(self).open() == old(self).open()
                &&& final(self).focus() == old(self).focus()
                &&& final(self).facets_view().len() == old(self).facets_view().len()
                &&& forall|i: int| 0 <= i < state@.len() ==> old(self).facets_view()[i].with_selection(
                    #[trigger] final(self).facets_view()[i],
                    state@[i] as nat,
                )
            },
    {
        if state.len() != self.facets.len() {
            return false;
        }
        let mut k: usize = 0;
        while k < state.len()
            invariant
                k <= state@.len(),
                state@.len() == self.facets_view().len(),
                self.wf(),
                forall|j: int| 0 <= j < k ==> #[trigger] state@[j] < self.facets_view()[j].options_view().len(),
            decreases state@.len() - k,
        {
            assert(self.facets_view()[k as int].wf());
            assert(self.facets@[k as int].options@.len() == self.facets_view()[k as int].options_view().len());
            if state[k] >= self.facets[k].options.len() {
                return false;
            }
            k = k + 1;
        }
        let ghost before = *self;
        let mut i: usize = 0;
        while i < state.len()
            invariant
                i <= state@.len(),
                before.valid_state(state@),
                before.wf(),
                self.wf(),
                self.active() == before.active(),
                self.open() == before.open(),
                self.focus() == before.focus(),
                self.defaults_in_range() == before.defaults_in_range(),
                self.facets_view().len() == before.facets_view().len(),
                forall|j: int| 0 <= j < i ==> before.facets_view()[j].with_selection(#[trigger] self.facets_view()[j], state@[j] as nat),
                forall|j: int| i <= j < before.facets_view().len() ==> #[trigger] self.facets_view()[j] == before.facets_view()[j],
            decreases state@.len() - i,
        {
            let ghost mid = *self;
            self.select_in(i, state[i]);
            assert forall|j: int| 0 <= j < i + 1 implies before.facets_view()[j].with_selection(#[trigger] self.facets_view()[j], state@[j] as nat) by {
                if j < i {
                    assert(self.facets_view()[j] == mid.facets_view()[j]);
                }
            }
            assert forall|j: int| i + 1 <= j < before.facets_view().len() implies #[trigger] self.facets_view()[j] == before.facets_view()[j] by {
                assert(self.facets_view()[j] == mid.facets_view()[j]);
            }
            i = i + 1;
        }
        true
    }
}

/// Two facets that show the same thing: same options, icon, default,
/// selection and name.
pub open spec fn same_facet(a: Facet, b: Facet) -> bool {
    &&& a.options_view() == b.options_view()
    &&& a.icon_view() == b.icon_view()
    &&& a.default() == b.default()
    &&& a.selected() == b.selected()
    &&& a.name_view() == b.name_view()
}

proof fn lemma_count_zero_iff_unfiltered(s: Seq<Facet>)
    ensures
        (count_filtered(s) == 0) == (forall|i: int| 0 <= i < s.len() ==> !(#[trigger] s[i]).spec_is_filtered()),
    decreases s.len(),
{
    if s.len() > 0 {
        lemma_count_zero_iff_unfiltered(s.drop_last());
        if count_filtered(s) == 0 {
            assert forall|i: int| 0 <= i < s.len() implies !(#[trigger] s[i]).spec_is_filtered() by {
                if i < s.len() - 1 {
                    assert(s.drop_last()[i] == s[i]);
                }
            }
        } else {
            if forall|i: int| 0 <= i < s.len() ==> !(#[trigger] s[i]).spec_is_filtered() {
                assert forall|i: int| 0 <= i < s.drop_last().len() implies !(#[trigger] s.drop_last()[i]).spec_is_filtered() by {
                    assert(s.drop_last()[i] == s[i]);
                }
                assert(!s[s.len() - 1].spec_is_filtered());
            }
        }
    }
}

/// The number of active filters is zero exactly when no facet is filtered.
pub proof fn law_active_count_zero_iff_unfiltered(bar: FacetedSearchBar)
    requires
        bar.wf(),
    ensures
        (count_filtered(bar.facets_view()) == 0) == !bar.spec_is_filtered(),
{
    lemma_count_zero_iff_unfiltered(bar.facets_view());
}

/// After every facet is reset to its default, no facet is filtered and the
/// active filter count is zero.
pub proof fn law_reset_clears_filters(before: FacetedSearchBar, after: FacetedSearchBar)
    requires
        before.wf(),
        after.facets_view().len() == before.facets_view().len(),
        forall|i: int| 0 <= i < before.facets_view().len() ==> before.facets_view()[i].with_selection(
            #[trigger] after.facets_view()[i],
            before.facets_view()[i].default(),
        ),
    ensures
        !after.spec_is_filtered(),
        count_filtered(after.facets_view()) == 0,
{
    assert forall|i: int| 0 <= i < after.facets_view().len() implies !(#[trigger] after.facets_view()[i]).spec_is_filtered() by {
        assert(before.facets_view()[i].with_selection(after.facets_view()[i], before.facets_view()[i].default()));
    }
    lemma_count_zero_iff_unfiltered(after.facets_view());
}

/// Restoring the saved selections of a bar is accepted and leaves every
/// facet showing what it showed.
pub proof fn law_restore_saved_state_is_identity(bar: FacetedSearchBar, state: Seq<usize>, after: FacetedSearchBar)
    requires
        bar.wf(),
        state.len() == bar.facets_view().len(),
        forall|i: int| 0 <= i < state.len() ==> state[i] == #[trigger] bar.facets_view()[i].selected(),
        after.facets_view().len() == bar.facets_view().len(),
        forall|i: int| 0 <= i < state.len() ==> bar.facets_view()[i].with_selection(
            #[trigger] after.facets_view()[i],
            state[i] as nat,
        ),
    ensures
        bar.valid_state(state),
        forall|i: int| 0 <= i < bar.facets_view().len() ==> same_facet(#[trigger] bar.facets_view()[i], after.facets_view()[i]),
{
    assert forall|i: int| 0 <= i < state.len() implies #[trigger] state[i] < bar.facets_view()[i].options_view().len() by {
        assert(bar.facets_view()[i].wf());
    }
    assert forall|i: int| 0 <= i < bar.facets_view().len() implies same_facet(#[trigger] bar.facets_view()[i], after.facets_view()[i]) by {
        assert(bar.facets_view()[i].wf());
        assert(bar.facets_view()[i].with_selection(after.facets_view()[i], state[i] as nat));
    }
}

} // verus!