//! The yes/no toggle and the vertical choice list.
use vstd::prelude::*;
use vstd::string::*;
use crate::keys::Key;
use crate::layer::{Layer, LayerView, layer_views};
use crate::prompt::{nothing, shown};
use crate::render::{Cmd, Command, cells_cmds, cmds, draw_layer, emit, emit_cells, layer_cmds};
use crate::text::{concat, lower_of, push_char, to_lower, to_upper, upper_of};

verus! {

/// The index of the first `/` in `s`, or its length if there is none.
pub open spec fn sep_index(s: Seq<char>) -> int
    decreases s.len(),
{
    if s.len() == 0 {
        0
    } else if s[0] == '/' {
        0
    } else {
        1 + sep_index(s.skip(1))
    }
}

/// The text before the first `/`.
pub open spec fn yes_part(s: Seq<char>) -> Seq<char> {
    s.take(sep_index(s))
}

/// The text between the first `/` and the next one, or the end.
pub open spec fn no_part(s: Seq<char>) -> Seq<char> {
    let rest = s.skip(sep_index(s) + 1);
    rest.take(sep_index(rest))
}

/// The toggle as shown: `(yes/no)`.
pub open spec fn label(yes: Seq<char>, no: Seq<char>) -> Seq<char> {
    seq!['('] + yes + seq!['/'] + no + seq![')']
}

proof fn lemma_sep_index(s: Seq<char>, i: int)
    requires
        0 <= i <= s.len(),
        forall|k: int| 0 <= k < i ==> s[k] != '/',
        i == s.len() || s[i] == '/',
    ensures
        sep_index(s) == i,
    decreases i,
{
    if i > 0 {
        let t = s.skip(1);
        assert forall|k: int| 0 <= k < i - 1 implies t[k] != '/' by {
            assert(t[k] == s[k + 1]);
        }
        lemma_sep_index(t, i - 1);
    }
}

proof fn lemma_sep_index_bounds(s: Seq<char>)
    ensures
        0 <= sep_index(s) <= s.len(),
        sep_index(s) < s.len() ==> s[sep_index(s)] == '/',
    decreases s.len(),
{
    if s.len() > 0 && s[0] != '/' {
        lemma_sep_index_bounds(s.skip(1));
    }
}

/// The index of the first `/` in `s` at or after `from`, or the length of `s`.
fn find_sep(s: &str, from: usize) -> (r: usize)
    requires
        from <= s@.len(),
    ensures
        r == from + sep_index(s@.skip(from as int)),
{
    let n = s.unicode_len();
    let mut i = from;
    while i < n && s.get_char(i) != '/'
        invariant
            from <= i <= n,
            n == s@.len(),
            forall|k: int| from <= k < i ==> s@[k] != '/',
        decreases n - i,
    {
        i = i + 1;
    }
    proof {
        let t = s@.skip(from as int);
        assert forall|k: int| 0 <= k < i - from implies t[k] != '/' by {
            assert(t[k] == s@[k + from]);
        }
        lemma_sep_index(t, i - from);
    }
    i
}

/// Splits a toggle's text at its `/`: the part before it, and the part after
/// it up to the next `/`.
pub fn split_yes_no(suffix: &str) -> (r: (String, String))
    requires
        sep_index(suffix@) < suffix@.len(),
    ensures
        r.0@ == yes_part(suffix@),
        r.1@ == no_part(suffix@),
{
    let n = suffix.unicode_len();
    let i = find_sep(suffix, 0);
    assert(suffix@.skip(0) =~= suffix@);
    assert(i < n);
    let j = find_sep(suffix, i + 1);
    proof {
        lemma_sep_index_bounds(suffix@.skip(i + 1));
    }
    let yes = String::from_str(suffix.substring_char(0, i));
    let no = String::from_str(suffix.substring_char(i + 1, j));
    proof {
        assert(yes@ =~= yes_part(suffix@));
        assert(no@ =~= no_part(suffix@));
    }
    (yes, no)
}

/// The toggle text `(yes/no)`.
pub fn yesno_label(yes: &String, no: &String) -> (r: String)
    ensures
        r@ == label(yes@, no@),
{
    let mut r = String::new();
    push_char(&mut r, '(');
    let r = concat(&r, yes);
    let mut r = r;
    push_char(&mut r, '/');
    let r = concat(&r, no);
    let mut r = r;
    push_char(&mut r, ')');
    assert(r@ =~= label(yes@, no@));
    r
}

/// What a [`YesNo`] holds.
pub ghost struct YesNoView {
    pub layer: LayerView,
    pub yes: Seq<char>,
    pub no: Seq<char>,
    pub choice: bool,
    pub done: bool,
}

/// A yes/no toggle: the selected side is shown upper-cased.
pub struct YesNo {
    layer: Layer,
    yes: String,
    no: String,
    choice: bool,
    done: bool,
}

impl View for YesNo {
    type V = YesNoView;

    closed spec fn view(&self) -> YesNoView {
        YesNoView {
            layer: self.layer@,
            yes: self.yes@,
            no: self.no@,
            choice: self.choice,
            done: self.done,
        }
    }
}

impl YesNo {
    /// A toggle at `posx`, `posy` whose two sides come from `suffix`, split at
    /// its first `/`; the `default` side is selected and upper-cased.
    pub fn new(suffix: &str, default: bool, posx: i32, posy: i32) -> (r: YesNo)
        requires
            sep_index(suffix@) < suffix@.len(),
        ensures
            r@.yes == (if default {
                upper_of(yes_part(suffix@))
            } else {
                yes_part(suffix@)
            }),
            r@.no == (if default {
                no_part(suffix@)
            } else {
                upper_of(no_part(suffix@))
            }),
            r@.layer == shown(Layer::new_view(posx, posy), label(r@.yes, r@.no)),
            r@.choice == default,
            !r@.done,
    {
        let (yes, no) = split_yes_no(suffix);
        let (yes, no) = if default {
            (to_upper(yes.as_str()), no)
        } else {
            (yes, to_upper(no.as_str()))
        };
        let mut layer = Layer::new(posx, posy);
        layer.set_content(yesno_label(&yes, &no));
        YesNo { layer, yes, no, choice: default, done: false }
    }

    /// The commands that paint the toggle.
    pub fn draw(&self) -> (r: Vec<Command>)
        ensures
            cmds(r@) == layer_cmds(self@.layer),
    {
        draw_layer(&self.layer)
    }

    /// Takes one key: `ArrowLeft` selects yes, `ArrowRight` selects no, and
    /// either re-renders the toggle with the selected side upper-cased and the
    /// other lower-cased; `Enter` ends the toggle; other keys change nothing.
    pub fn feed(&mut self, key: Key) -> (r: Vec<Command>)
        requires
            !old(self)@.done,
        ensures
            final(self)@.done == (key == Key::Enter),
            final(self)@.choice == (match key {
                Key::ArrowLeft => true,
                Key::ArrowRight => false,
                _ => old(self)@.choice,
            }),
            (key is ArrowLeft || key is ArrowRight) ==> {
                &&& final(self)@.yes == (if final(self)@.choice {
                    upper_of(old(self)@.yes)
                } else {
                    lower_of(old(self)@.yes)
                })
                &&& final(self)@.no == (if final(self)@.choice {
                    lower_of(old(self)@.no)
                } else {
                    upper_of(old(self)@.no)
                })
                &&& final(self)@.layer == shown(
                    old(self)@.layer,
                    label(final(self)@.yes, final(self)@.no),
                )
                &&& cmds(r@) == layer_cmds(final(self)@.layer)
            },
            !(key is ArrowLeft || key is ArrowRight) ==> {
                &&& final(self)@.yes == old(self)@.yes
                &&& final(self)@.no == old(self)@.no
                &&& final(self)@.layer == old(self)@.layer
                &&& cmds(r@) == Seq::<Cmd>::empty()
            },
    {
        match key {
            Key::Enter => {
                self.done = true;
                nothing()
            },
            Key::ArrowLeft => {
                self.choice = true;
                self.restyle()
            },
            Key::ArrowRight => {
                self.choice = false;
                self.restyle()
            },
            _ => nothing(),
        }
    }

    /// Upper-cases the selected side, lower-cases the other, and repaints.
    fn restyle(&mut self) -> (r: Vec<Command>)
        ensures
            final(self)@.choice == old(self)@.choice,
            final(self)@.done == old(self)@.done,
            final(self)@.yes == (if old(self)@.choice {
                upper_of(old(self)@.yes)
            } else {
                lower_of(old(self)@.yes)
            }),
            final(self)@.no == (if old(self)@.choice {
                lower_of(old(self)@.no)
            } else {
                upper_of(old(self)@.no)
            }),
            final(self)@.layer == shown(old(self)@.layer, label(final(self)@.yes, final(self)@.no)),
            cmds(r@) == layer_cmds(final(self)@.layer),
    {
        if self.choice {
            self.no = to_lower(self.no.as_str());
            self.yes = to_upper(self.yes.as_str());
        } else {
            self.yes = to_lower(self.yes.as_str());
            self.no = to_upper(self.no.as_str());
        }
        let t = yesno_label(&self.yes, &self.no);
        self.layer.set_content(t);
        draw_layer(&self.layer)
    }

    /// `Enter` has been taken.
    pub fn is_done(&self) -> (r: bool)
        ensures
            r == self@.done,
    {
        self.done
    }

    /// The layer that shows the toggle.
    pub fn layer(&self) -> (r: &Layer)
        ensures
            r@ == self@.layer,
    {
        &self.layer
    }

    /// The selection: `true` for yes.
    pub fn answer(&self) -> (r: bool)
        ensures
            r == self@.choice,
    {
        self.choice
    }
}

/// A list item shown with the prefix when it is the selection, bare
/// otherwise.
pub open spec fn choice_item(v: LayerView, prefix: Seq<char>, on: bool) -> LayerView {
    shown(v, if on { prefix + v.inner } else { v.inner })
}

/// Every item re-rendered for the selection `sel`.
pub open spec fn restyled(items: Seq<LayerView>, prefix: Seq<char>, sel: int) -> Seq<LayerView> {
    Seq::new(items.len(), |i: int| choice_item(items[i], prefix, i == sel))
}

/// The items of a new list at column `x`, one per row from row `y` on, the
/// first one selected.
pub open spec fn initial_items(strs: Seq<String>, prefix: Seq<char>, x: int, y: int) -> Seq<
    LayerView,
> {
    Seq::new(
        strs.len(),
        |i: int|
            choice_item(
                LayerView { posx: x, posy: y + i, inner: strs[i]@, content: Seq::empty(), width: 0 },
                prefix,
                i == 0,
            ),
    )
}

/// The selection after one key: `ArrowDown` moves it down and `ArrowUp` up,
/// stopping at either end of a list of `n`.
pub open spec fn next_selection(sel: nat, n: nat, k: Key) -> nat {
    match k {
        Key::ArrowDown => if sel + 1 < n {
            sel + 1
        } else {
            sel
        },
        Key::ArrowUp => if sel > 0 {
            (sel - 1) as nat
        } else {
            sel
        },
        _ => sel,
    }
}

/// What a [`Choices`] holds.
pub ghost struct ChoicesView {
    pub prefix: Seq<char>,
    pub items: Seq<LayerView>,
    pub selected: nat,
    pub done: bool,
}

/// A vertical list of choices, one layer per item; the selected item is shown
/// with a prefix.
pub struct Choices {
    prefix: String,
    items: Vec<Layer>,
    selected: usize,
    done: bool,
}

impl View for Choices {
    type V = ChoicesView;

    closed spec fn view(&self) -> ChoicesView {
        ChoicesView {
            prefix: self.prefix@,
            items: layer_views(self.items@),
            selected: self.selected as nat,
            done: self.done,
        }
    }
}

/// `prefix` followed by `text`.
fn prefixed(prefix: &String, text: &String) -> (r: String)
    ensures
        r@ == prefix@ + text@,
{
    concat(prefix, text)
}

impl Choices {
    /// Holds of every list: it has an item, the selection is one of them, and
    /// its row count fits a cursor offset.
    #[verifier::type_invariant]
    pub closed spec fn inv(&self) -> bool {
        &&& 0 < self.items@.len() <= i32::MAX
        &&& self.selected < self.items@.len()
    }

    /// A list of `strs` at column `x`, one item per row from row `y` on, with
    /// the first item selected.
    pub fn new(prefix: String, strs: Vec<String>, x: i32, y: i32) -> (r: Choices)
        requires
            strs@.len() > 0,
            y + strs@.len() <= i32::MAX,
            strs@.len() <= i32::MAX,
        ensures
            r@ == (ChoicesView {
                prefix: prefix@,
                items: initial_items(strs@, prefix@, x as int, y as int),
                selected: 0,
                done: false,
            }),
    {
        let n = strs.len();
        let ghost want = initial_items(strs@, prefix@, x as int, y as int);
        let mut items: Vec<Layer> = Vec::new();
        let mut i: usize = 0;
        while i < n
            invariant
                i <= n,
                n == strs@.len(),
                y + n <= i32::MAX,
                n <= i32::MAX,
                want == initial_items(strs@, prefix@, x as int, y as int),
                items@.len() == i,
                forall|k: int| 0 <= k < i ==> #[trigger] items@[k]@ == want[k],
            decreases n - i,
        {
            let mut l = Layer::new(x, y + i as i32);
            proof {
                use_type_invariant(&l);
            }
            l.inner_content = strs[i].clone();
            if i == 0 {
                let t = prefixed(&prefix, &l.inner_content);
                l.set_content(t);
            } else {
                l.inner_to_outer();
            }
            assert(l@ == want[i as int]);
            items.push(l);
            i = i + 1;
        }
        assert(layer_views(items@) =~= want);
        Choices { prefix, items, selected: 0, done: false }
    }

    /// The commands that paint every item, each with the cursor kept, then
    /// move the cursor down past the list.
    pub fn start(&self) -> (r: Vec<Command>)
        ensures
            cmds(r@) == cells_cmds(self@.items) + seq![Cmd::MoveBy(0, self@.items.len() as int)],
    {
        proof {
            use_type_invariant(self);
        }
        let mut out: Vec<Command> = Vec::new();
        emit_cells(&mut out, &self.items);
        let ghost mid = cmds(out@);
        assert(mid =~= cells_cmds(self@.items));
        emit(&mut out, Command::MoveBy(0, self.items.len() as i32));
        out
    }

    /// Takes one key: `ArrowDown` and `ArrowUp` move the selection, stopping
    /// at either end, and either re-renders every item for the new selection;
    /// `Enter` ends the list; other keys change nothing. Returns the commands
    /// that repaint the items, each with the cursor kept.
    pub fn feed(&mut self, key: Key) -> (r: Vec<Command>)
        requires
            !old(self)@.done,
        ensures
            final(self)@.done == (key == Key::Enter),
            final(self)@.prefix == old(self)@.prefix,
            final(self)@.selected == next_selection(
                old(self)@.selected,
                old(self)@.items.len(),
                key,
            ),
            (key is ArrowDown || key is ArrowUp) ==> {
                &&& final(self)@.items == restyled(
                    old(self)@.items,
                    old(self)@.prefix,
                    final(self)@.selected as int,
                )
                &&& cmds(r@) == cells_cmds(final(self)@.items)
            },
            !(key is ArrowDown || key is ArrowUp) ==> {
                &&& final(self)@.items == old(self)@.items
                &&& cmds(r@) == Seq::<Cmd>::empty()
            },
    {
        proof {
            use_type_invariant(&*self);
        }
        match key {
            Key::Enter => {
                self.done = true;
                nothing()
            },
            Key::ArrowDown => {
                let sel = if self.selected + 1 < self.items.len() {
                    self.selected + 1
                } else {
                    self.selected
                };
                self.select(sel)
            },
            Key::ArrowUp => {
                let sel = if self.selected > 0 {
                    self.selected - 1
                } else {
                    self.selected
                };
                self.select(sel)
            },
            _ => nothing(),
        }
    }

    /// Makes `sel` the selection, re-renders every item and repaints them.
    fn select(&mut self, sel: usize) -> (r: Vec<Command>)
        requires
            sel < old(self)@.items.len(),
        ensures
            final(self)@ == (ChoicesView {
                items: restyled(old(self)@.items, old(self)@.prefix, sel as int),
                selected: sel as nat,
                ..old(self)@
            }),
            cmds(r@) == cells_cmds(final(self)@.items),
    {
        proof {
            use_type_invariant(&*self);
        }
        let ghost want = restyled(old(self)@.items, old(self)@.prefix, sel as int);
        let n = self.items.len();
        let mut items: Vec<Layer> = Vec::new();
        let mut i: usize = 0;
        while i < n
            invariant
                i <= n,
                n == self.items@.len(),
                want == restyled(layer_views(self.items@), self.prefix@, sel as int),
                items@.len() == i,
                forall|k: int| 0 <= k < i ==> #[trigger] items@[k]@ == want[k],
            decreases n - i,
        {
            let mut l = self.items[i].clone();
            if i == sel {
                let t = prefixed(&self.prefix, &l.inner_content);
                l.set_content(t);
            } else {
                l.inner_to_outer();
            }
            assert(l@ == want[i as int]);
            items.push(l);
            i = i + 1;
        }
        assert(layer_views(items@) =~= want);
        *self = Choices { prefix: self.prefix.clone(), items, selected: sel, done: self.done };
        let mut out: Vec<Command> = Vec::new();
        emit_cells(&mut out, &self.items);
        assert(cmds(out@) =~= cells_cmds(want));
        out
    }

    /// `Enter` has been taken.
    pub fn is_done(&self) -> (r: bool)
        ensures
            r == self@.done,
    {
        self.done
    }

    /// The item layers, top first.
    pub fn items(&self) -> (r: &Vec<Layer>)
        ensures
            layer_views(r@) == self@.items,
    {
        &self.items
    }

    /// The index of the selected item.
    pub fn selected(&self) -> (r: usize)
        ensures
            r == self@.selected,
            r < self@.items.len(),
    {
        proof {
            use_type_invariant(self);
        }
        self.selected
    }

    /// The text of the selected item, without the prefix.
    pub fn answer(&self) -> (r: String)
        ensures
            r@ == self@.items[self@.selected as int].inner,
    {
        proof {
            use_type_invariant(self);
        }
        self.items[self.selected].inner_content.clone()
    }
}

} // verus!
