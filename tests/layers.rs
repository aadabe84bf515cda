use termlayers::arrangement::{locate_idx, resolves_idx};
use termlayers::{Layer, Layer2D, LayerArrangement};

#[test]
fn term() {
    let layers = LayerArrangement::new();
    assert_eq!(layers.len(), 0);
}

#[test]
fn layer2d() {
    let mut l = Layer::new(0, 0);
    l.set_content("X".into());
    let l2d = Layer2D::new(0, 0, 5, 5, l);
    let mut t = LayerArrangement::new();
    let l2d = t.add_layer2d(l2d);
    assert_eq!(l2d.layers.len(), 25);
    assert_eq!(l2d.get(4, 4).posx, 4);
    assert_eq!(l2d.get(4, 4).posy, 4);
    assert_eq!(l2d.get(3, 4).get_content(), "X");
    assert_eq!(t.len(), 1);
}

#[test]
fn layer_arr() {
    let mut t = LayerArrangement::new();
    let mut behindl = Layer::new(0, 0);
    behindl.set_content("X".into());
    let behindl2d = Layer2D::new(0, 0, 4, 4, behindl);
    t.add_layer2d(behindl2d);
    let mut frontl = Layer::new(0, 0);
    frontl.set_content("Y".into());
    let frontl2d = Layer2D::new(0, 0, 2, 2, frontl);
    t.add_layer2d(frontl2d);
    t.layer_swap(0, -1);
    let back = t.layer_back();
    assert_eq!(back.length, 2);
    assert_eq!(back.get(0, 0).get_content(), "Y");
    assert_eq!(t.layer_front().get(0, 0).get_content(), "X");
    assert_eq!(t.layer_front().length, 4);
}

#[test]
fn fresh_layer_is_empty() {
    let l = Layer::new(3, 7);
    assert_eq!(l.posx, 3);
    assert_eq!(l.posy, 7);
    assert_eq!(l.get_content(), "");
    assert_eq!(l.inner_content, "");
    assert_eq!(l.length(), 0);
}

#[test]
fn set_content_grows_to_fit() {
    let mut l = Layer::new(0, 0);
    l.set_content("Hello".into());
    assert_eq!(l.length(), 5);
    assert!(l.length() >= "Hello".len());
}

#[test]
fn width_never_shrinks_until_shrink() {
    let mut l = Layer::new(0, 0);
    let mut last = 0;
    for s in ["ab", "abcdef", "", "xyz", "abcdefgh", "q"] {
        l.set_content(s.into());
        assert!(l.length() >= s.len());
        assert!(l.length() >= last);
        last = l.length();
    }
    assert_eq!(l.length(), 8);
    assert_eq!(l.get_content(), "q");
}

#[test]
fn shrink_matches_content() {
    let mut l = Layer::new(0, 0);
    l.set_content("Hello".into());
    l.set_content("Bye".into());
    assert_eq!(l.length(), 5);
    l.shrink();
    assert_eq!(l.length(), l.get_content().len());
    assert_eq!(l.length(), 3);
    assert_eq!(l.get_content(), "Bye");
}

#[test]
fn shrink_of_empty_layer() {
    let mut l = Layer::new(0, 0);
    l.set_content("abc".into());
    l.set_content(String::new());
    l.shrink();
    assert_eq!(l.length(), 0);
}

#[test]
fn set_content_chains() {
    let mut l = Layer::new(0, 0);
    l.set_content("long text".into()).set_content("s".into());
    assert_eq!(l.get_content(), "s");
    assert_eq!(l.length(), 9);
}

#[test]
fn inner_to_outer_copies_and_grows() {
    let mut l = Layer::new(0, 0);
    l.set_content("ab".into());
    l.inner_content = "Hello rust!".into();
    l.inner_to_outer();
    assert_eq!(l.get_content(), "Hello rust!");
    assert_eq!(l.inner_content, "Hello rust!");
    assert_eq!(l.length(), 11);
}

#[test]
fn width_counts_characters() {
    let mut l = Layer::new(0, 0);
    l.set_content("héllo".into());
    assert_eq!(l.length(), 5);
}

#[test]
fn populate_places_cells() {
    let mut p = Layer::new(9, 9);
    p.set_content("X".into());
    let g = Layer2D::new(0, 0, 3, 2, p);
    assert_eq!(g.layers.len(), 6);
    assert_eq!(g.layers[4].posx, 1);
    assert_eq!(g.layers[4].posy, 1);
    assert_eq!(g.get(1, 1).posx, 1);
    assert_eq!(g.char_count(), 1);
}

#[test]
fn populate_uses_content_width_as_pitch() {
    let mut p = Layer::new(0, 0);
    p.set_content("abc".into());
    let g = Layer2D::new(5, 6, 4, 3, p);
    assert_eq!(g.posx, 5);
    assert_eq!(g.posy, 6);
    assert_eq!(g.char_count(), 3);
    assert_eq!(g.get(3, 2).posx, 9);
    assert_eq!(g.get(3, 2).posy, 2);
    assert_eq!(g.get(0, 1).posx, 0);
    assert_eq!(g.get(0, 1).posy, 1);
    assert_eq!(g.get(3, 2).get_content(), "abc");
}

#[test]
fn repopulate_replaces_cells() {
    let mut p = Layer::new(0, 0);
    p.set_content("ab".into());
    let mut g = Layer2D::new(0, 0, 2, 2, p);
    let mut q = Layer::new(0, 0);
    q.set_content("Z".into());
    g.populate(q);
    assert_eq!(g.layers.len(), 4);
    assert_eq!(g.char_count(), 1);
    assert_eq!(g.get(1, 1).posx, 1);
    assert_eq!(g.get(1, 1).get_content(), "Z");
}

#[test]
fn empty_grid_has_no_cells() {
    let p = Layer::new(0, 0);
    let g = Layer2D::new(0, 0, 0, 4, p);
    assert_eq!(g.layers.len(), 0);
}

#[test]
fn index_edits_in_place() {
    let mut p = Layer::new(0, 0);
    p.set_content("X".into());
    let mut g = Layer2D::new(0, 0, 3, 3, p);
    g.index(2, 1).set_content("O".into());
    assert_eq!(g.get(2, 1).get_content(), "O");
    assert_eq!(g.layers[5].get_content(), "O");
    assert_eq!(g.get(1, 2).get_content(), "X");
}

#[test]
fn locate_idx_ends() {
    for n in 1usize..6 {
        assert_eq!(locate_idx(n, 0), n - 1);
        assert_eq!(locate_idx(n, -(n as i32 - 1)), 0);
        if n >= 2 {
            assert_eq!(locate_idx(n, 1), 1);
        }
    }
    assert_eq!(locate_idx(4, -1), 2);
    assert_eq!(locate_idx(4, 2), 2);
}

fn grid_of(s: &str) -> Layer2D {
    let mut l = Layer::new(0, 0);
    l.set_content(s.into());
    Layer2D::new(0, 0, 1, 1, l)
}

#[test]
fn stack_addressing() {
    let mut t = LayerArrangement::new();
    for s in ["L4", "L3", "L2", "L1"] {
        t.add_layer2d(grid_of(s));
    }
    assert_eq!(t.layer_front().get(0, 0).get_content(), "L1");
    assert_eq!(t.layer_back().get(0, 0).get_content(), "L4");
    assert_eq!(t.layer_locate(0).get(0, 0).get_content(), "L1");
    assert_eq!(t.layer_locate(-1).get(0, 0).get_content(), "L2");
    assert_eq!(t.layer_locate(1).get(0, 0).get_content(), "L3");
    assert_eq!(t.layer_locate(-2).get(0, 0).get_content(), "L3");
    assert_eq!(t.layer_locate(-3).get(0, 0).get_content(), "L4");
}

#[test]
fn swap_with_itself_changes_nothing() {
    let mut t = LayerArrangement::new();
    t.add_layer2d(grid_of("a"));
    t.add_layer2d(grid_of("b"));
    t.layer_swap(1, 0);
    assert_eq!(t.layer_back().get(0, 0).get_content(), "a");
    assert_eq!(t.layer_front().get(0, 0).get_content(), "b");
}

#[test]
fn stack_loc_records_push_order() {
    let mut t = LayerArrangement::new();
    assert_eq!(t.add_layer2d(grid_of("a")).stack_loc(), 0);
    assert_eq!(t.add_layer2d(grid_of("b")).stack_loc(), -1);
    t.add_layer(Layer::new(4, 5));
    assert_eq!(t.layer_front().stack_loc(), -2);
}

#[test]
fn add_layer_wraps_in_one_cell() {
    let mut t = LayerArrangement::new();
    let mut l = Layer::new(4, 5);
    l.set_content("hi".into());
    let cell = t.add_layer(l);
    cell.set_content("hey".into());
    let g = t.layer_front();
    assert_eq!(g.posx, 4);
    assert_eq!(g.posy, 5);
    assert_eq!(g.length, 1);
    assert_eq!(g.height, 1);
    assert_eq!(g.get(0, 0).get_content(), "hey");
    assert_eq!(g.get(0, 0).posx, 0);
    assert_eq!(g.get(0, 0).posy, 0);
}

#[test]
fn pop_takes_top() {
    let mut t = LayerArrangement::new();
    assert!(t.pop().is_none());
    t.add_layer2d(grid_of("a"));
    t.add_layer2d(grid_of("b"));
    let top = t.pop().unwrap();
    assert_eq!(top.get(0, 0).get_content(), "b");
    assert_eq!(t.len(), 1);
}

#[test]
fn relative_index_in_range() {
    assert!(resolves_idx(4, 0));
    assert!(resolves_idx(4, -3));
    assert!(!resolves_idx(4, -4));
    assert!(resolves_idx(4, 3));
    assert!(!resolves_idx(4, 4));
    assert!(!resolves_idx(0, 0));
    assert!(!resolves_idx(3, i32::MIN));
}
