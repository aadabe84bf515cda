//! The free-text and masked prompts: one layer edited a key at a time.
use vstd::prelude::*;
use crate::keys::Key;
use crate::layer::{Layer, LayerView, grown_width};
use crate::render::{Cmd, Command, cmds, draw_layer, layer_cmds};
use crate::text::{push_char, without_last, char_len};

verus! {

/// The text after one key: a character is appended, `Backspace` removes the
/// last character if there is one, any other key changes nothing.
pub open spec fn edit_text(t: Seq<char>, k: Key) -> Seq<char> {
    match k {
        Key::Alpha(c) => t.push(c),
        Key::Backspace => if t.len() > 0 {
            t.drop_last()
        } else {
            t
        },
        _ => t,
    }
}

/// The key changes the text being edited.
pub open spec fn edits(t: Seq<char>, k: Key) -> bool {
    k is Alpha || (k is Backspace && t.len() > 0)
}

/// `v` showing `t`, under the layer's growth rule.
pub open spec fn shown(v: LayerView, t: Seq<char>) -> LayerView {
    LayerView { content: t, width: grown_width(v.width, t), ..v }
}

/// The commands a prompt emits after a key, given its layer after the key:
/// a repaint when the text changed, one step right on `Backspace` with
/// nothing to remove, nothing otherwise.
pub open spec fn prompt_cmds(before: Seq<char>, k: Key, after: LayerView) -> Seq<Cmd> {
    if edits(before, k) {
        layer_cmds(after)
    } else if k is Backspace {
        seq![Cmd::MoveBy(1, 0)]
    } else {
        Seq::empty()
    }
}

/// What an [`Ask`] holds.
pub ghost struct AskView {
    pub layer: LayerView,
    pub done: bool,
}

/// A free-text prompt: the typed text is shown as typed.
pub struct Ask {
    layer: Layer,
    done: bool,
}

impl View for Ask {
    type V = AskView;

    closed spec fn view(&self) -> AskView {
        AskView { layer: self.layer@, done: self.done }
    }
}

/// The commands that step the cursor one column right.
fn step_right() -> (r: Vec<Command>)
    ensures
        cmds(r@) == seq![Cmd::MoveBy(1, 0)],
{
    let r = vec![Command::MoveBy(1, 0)];
    assert(cmds(r@) =~= seq![Cmd::MoveBy(1, 0)]);
    r
}

/// No commands.
pub(crate) fn nothing() -> (r: Vec<Command>)
    ensures
        cmds(r@) == Seq::<Cmd>::empty(),
{
    let r: Vec<Command> = Vec::new();
    assert(cmds(r@) =~= Seq::<Cmd>::empty());
    r
}

/// `t` after the key `k` (see [`edit_text`]).
fn apply_key(t: String, k: Key) -> (r: String)
    ensures
        r@ == edit_text(t@, k),
{
    match k {
        Key::Alpha(c) => {
            let mut t = t;
            push_char(&mut t, c);
            t
        },
        Key::Backspace => {
            if char_len(&t) > 0 {
                without_last(&t)
            } else {
                t
            }
        },
        _ => t,
    }
}

impl Ask {
    /// A prompt whose text starts, empty, at `posx`, `posy` (just after the
    /// prompt's prefix).
    pub fn new(posx: i32, posy: i32) -> (r: Ask)
        ensures
            r@.layer == Layer::new_view(posx, posy),
            !r@.done,
    {
        Ask { layer: Layer::new(posx, posy), done: false }
    }

    /// Takes one key: `Enter` ends the prompt, a character or `Backspace`
    /// edits the text. Returns the commands that show the change.
    pub fn feed(&mut self, key: Key) -> (r: Vec<Command>)
        requires
            !old(self)@.done,
        ensures
            final(self)@.done == (key == Key::Enter),
            final(self)@.layer == (if edits(old(self)@.layer.content, key) {
                shown(old(self)@.layer, edit_text(old(self)@.layer.content, key))
            } else {
                old(self)@.layer
            }),
            cmds(r@) == prompt_cmds(old(self)@.layer.content, key, final(self)@.layer),
    {
        match key {
            Key::Enter => {
                self.done = true;
                nothing()
            },
            Key::Alpha(_) => {
                let t = apply_key(self.layer.get_content(), key);
                self.layer.set_content(t);
                draw_layer(&self.layer)
            },
            Key::Backspace => {
                let t = self.layer.get_content();
                if char_len(&t) > 0 {
                    self.layer.set_content(apply_key(t, key));
                    draw_layer(&self.layer)
                } else {
                    step_right()
                }
            },
            _ => nothing(),
        }
    }

    /// `Enter` has been taken.
    pub fn is_done(&self) -> (r: bool)
        ensures
            r == self@.done,
    {
        self.done
    }

    /// The layer that shows the typed text.
    pub fn layer(&self) -> (r: &Layer)
        ensures
            r@ == self@.layer,
    {
        &self.layer
    }

    /// The typed text.
    pub fn answer(&self) -> (r: String)
        ensures
            r@ == self@.layer.content,
    {
        self.layer.get_content()
    }
}

/// `n` copies of the mask character `m`.
pub open spec fn masked(n: nat, m: char) -> Seq<char> {
    Seq::new(n, |i: int| m)
}

/// What a [`Mask`] holds.
pub ghost struct MaskView {
    pub layer: LayerView,
    pub hidden: Seq<char>,
    pub mask: char,
    pub done: bool,
}

/// A masked prompt: each typed character is shown as the mask character,
/// while the real characters are kept hidden.
pub struct Mask {
    layer: Layer,
    hidden: String,
    mask: char,
    done: bool,
}

impl View for Mask {
    type V = MaskView;

    closed spec fn view(&self) -> MaskView {
        MaskView { layer: self.layer@, hidden: self.hidden@, mask: self.mask, done: self.done }
    }
}

impl Mask {
    /// Holds of every masked prompt: one mask character is shown per hidden
    /// character.
    #[verifier::type_invariant]
    pub closed spec fn inv(&self) -> bool {
        self.layer@.content == masked(self.hidden@.len(), self.mask)
    }

    /// A masked prompt that shows `mask` per character, starting empty at
    /// `posx`, `posy`.
    pub fn new(posx: i32, posy: i32, mask: char) -> (r: Mask)
        ensures
            r@.layer == Layer::new_view(posx, posy),
            r@.hidden == Seq::<char>::empty(),
            r@.mask == mask,
            !r@.done,
    {
        let layer = Layer::new(posx, posy);
        let hidden = String::new();
        assert(layer@.content =~= masked(hidden@.len(), mask));
        Mask { layer, hidden, mask, done: false }
    }

    /// Takes one key: `Enter` ends the prompt; a character is kept hidden and
    /// shown as one more mask character; `Backspace` removes the last hidden
    /// character and one mask character. Returns the commands that show the
    /// change.
    pub fn feed(&mut self, key: Key) -> (r: Vec<Command>)
        requires
            !old(self)@.done,
        ensures
            final(self)@.done == (key == Key::Enter),
            final(self)@.mask == old(self)@.mask,
            final(self)@.hidden == edit_text(old(self)@.hidden, key),
            final(self)@.layer == (if edits(old(self)@.layer.content, key) {
                shown(old(self)@.layer, masked(final(self)@.hidden.len(), old(self)@.mask))
            } else {
                old(self)@.layer
            }),
            cmds(r@) == prompt_cmds(old(self)@.layer.content, key, final(self)@.layer),
    {
        proof {
            use_type_invariant(&*self);
        }
        match key {
            Key::Enter => {
                self.done = true;
                nothing()
            },
            Key::Alpha(c) => {
                let mut t = self.layer.get_content();
                push_char(&mut t, self.mask);
                let mut h = self.hidden.clone();
                push_char(&mut h, c);
                assert(t@ =~= masked(h@.len(), self.mask));
                self.show(t, h)
            },
            Key::Backspace => {
                let t = self.layer.get_content();
                if char_len(&t) > 0 {
                    let t = without_last(&t);
                    let h = without_last(&self.hidden);
                    assert(t@ =~= masked(h@.len(), self.mask));
                    self.show(t, h)
                } else {
                    step_right()
                }
            },
            _ => nothing(),
        }
    }

    /// Shows `t` for the hidden text `h` and returns the repaint.
    fn show(&mut self, t: String, h: String) -> (r: Vec<Command>)
        requires
            t@ == masked(h@.len(), old(self)@.mask),
        ensures
            final(self)@ == (MaskView {
                layer: shown(old(self)@.layer, t@),
                hidden: h@,
                ..old(self)@
            }),
            cmds(r@) == layer_cmds(final(self)@.layer),
    {
        let mut layer = self.layer.clone();
        layer.set_content(t);
        *self = Mask { layer, hidden: h, mask: self.mask, done: self.done };
        draw_layer(&self.layer)
    }

    /// `Enter` has been taken.
    pub fn is_done(&self) -> (r: bool)
        ensures
            r == self@.done,
    {
        self.done
    }

    /// The layer that shows the mask characters.
    pub fn layer(&self) -> (r: &Layer)
        ensures
            r@ == self@.layer,
            r@.content == masked(self@.hidden.len(), self@.mask),
    {
        proof {
            use_type_invariant(self);
        }
        &self.layer
    }

    /// The typed text, unmasked.
    pub fn answer(&self) -> (r: String)
        ensures
            r@ == self@.hidden,
    {
        self.hidden.clone()
    }
}

} // verus!
