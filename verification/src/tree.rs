//! The Stern-Brocot mediant tree over one octave.
//!
//! Layer 0 holds the root node 3/2 bounded by 1/1 and 2/1; every further
//! layer expands each node of the previous layer into its two mediant
//! children, left to right.  All arithmetic is exact: a depth bound keeps
//! every component comfortably inside `u32`.

use vstd::prelude::*;

verus! {

use crate::ratio::{Ratio, ratio_lt, median_spec, median, lemma_median_between};
use crate::geom::{Frac, frac_is, ScreenSize, lemma_mul_le};
use vstd::arithmetic::power2::{pow2, lemma_pow2_unfold, lemma2_to64, lemma_pow2_strictly_increases};

/// Deepest layer the tree will generate.  At depth `k` every component is
/// at most `3 * 2^k`, so this bound keeps one more expansion inside `u32`.
pub const MAX_DEPTH: usize = 30;

/// One tree node: a ratio together with the interval it subdivides.
#[derive(Clone, Copy, PartialEq, Eq, Structural, Debug)]
pub struct SbLeaf {
    pub ratio: Ratio,
    pub left: Ratio,
    pub right: Ratio,
}

/// The root node: 3/2 inside the octave (1/1, 2/1).
pub open spec fn root_leaf() -> SbLeaf {
    SbLeaf {
        ratio: Ratio { num: 3, den: 2 },
        left: Ratio { num: 1, den: 1 },
        right: Ratio { num: 2, den: 1 },
    }
}

/// The child subdividing the lower half of `p`'s interval.
pub open spec fn left_child(p: SbLeaf) -> SbLeaf {
    SbLeaf { ratio: median_spec(p.left, p.ratio), left: p.left, right: p.ratio }
}

/// The child subdividing the upper half of `p`'s interval.
pub open spec fn right_child(p: SbLeaf) -> SbLeaf {
    SbLeaf { ratio: median_spec(p.ratio, p.right), left: p.ratio, right: p.right }
}

/// One full expansion step: every node becomes its two children, in order.
pub open spec fn expand_layer(s: Seq<SbLeaf>) -> Seq<SbLeaf> {
    Seq::new(
        2 * s.len(),
        |i: int| if i % 2 == 0 { left_child(s[i / 2]) } else { right_child(s[i / 2]) },
    )
}

/// The unique tree of depth `n`: layers 0 through `n`.
pub open spec fn tree_layers(n: nat) -> Seq<Seq<SbLeaf>>
    decreases n,
{
    if n == 0 {
        seq![seq![root_leaf()]]
    } else {
        tree_layers((n - 1) as nat).push(expand_layer(tree_layers((n - 1) as nat).last()))
    }
}

/// The node invariant: positive components, bounds strictly straddling the
/// ratio by cross-multiplication, and the ratio exactly the mediant of the
/// bounds, with no wrap-around.
pub open spec fn leaf_wf(l: SbLeaf) -> bool {
    &&& l.left.num >= 1 && l.left.den >= 1
    &&& l.right.num >= 1 && l.right.den >= 1
    &&& l.ratio.num == l.left.num + l.right.num
    &&& l.ratio.den == l.left.den + l.right.den
    &&& ratio_lt(l.left, l.ratio)
    &&& ratio_lt(l.ratio, l.right)
}

/// Every component of `l` is at most `b`.
pub open spec fn leaf_bounded(l: SbLeaf, b: nat) -> bool {
    &&& l.ratio.num <= b && l.ratio.den <= b
    &&& l.left.num <= b && l.left.den <= b
    &&& l.right.num <= b && l.right.den <= b
}

/// All nodes of a layer at depth `k` are well formed and bounded by `3 * 2^k`.
pub open spec fn layer_ok(s: Seq<SbLeaf>, k: nat) -> bool {
    forall|j: int|
        0 <= j < s.len() ==> leaf_wf(#[trigger] s[j]) && leaf_bounded(s[j], 3 * pow2(k))
}

/// A well-formed, bounded node has well-formed children with components at
/// most twice as large.
pub proof fn lemma_children_wf(p: SbLeaf, b: nat)
    requires
        leaf_wf(p),
        leaf_bounded(p, b),
        2 * b <= u32::MAX,
    ensures
        leaf_wf(left_child(p)),
        leaf_bounded(left_child(p), 2 * b),
        leaf_wf(right_child(p)),
        leaf_bounded(right_child(p), 2 * b),
{
    lemma_median_between(p.left, p.ratio);
    lemma_median_between(p.ratio, p.right);
}

/// Shape of the generated tree: depth `n` means `n + 1` layers, layer `k`
/// holds exactly `2^k` nodes, and layer 0 is the root alone.
pub proof fn lemma_tree_shape(n: nat)
    ensures
        tree_layers(n).len() == n + 1,
        forall|k: int| 0 <= k <= n ==> #[trigger] tree_layers(n)[k].len() == pow2(k as nat),
        tree_layers(n)[0] == seq![root_leaf()],
    decreases n,
{
    lemma2_to64();
    if n > 0 {
        let prev = tree_layers((n - 1) as nat);
        lemma_tree_shape((n - 1) as nat);
        lemma_pow2_unfold(n);
        assert(tree_layers(n)[n as int] == expand_layer(prev.last()));
        assert(expand_layer(prev.last()).len() == 2 * pow2((n - 1) as nat));
        assert forall|k: int| 0 <= k <= n implies #[trigger] tree_layers(n)[k].len() == pow2(
            k as nat,
        ) by {
            if k < n {
                assert(tree_layers(n)[k] == prev[k]);
            }
        }
    }
}

/// Every node of every layer of the tree of depth `n` satisfies the node
/// invariant, with components bounded by `3 * 2^k` at layer `k`.
pub proof fn lemma_tree_wf(n: nat)
    requires
        n <= MAX_DEPTH,
    ensures
        forall|k: int| 0 <= k <= n ==> layer_ok(#[trigger] tree_layers(n)[k], k as nat),
    decreases n,
{
    lemma2_to64();
    if n == 0 {
        assert(layer_ok(tree_layers(0)[0], 0)) by {
            assert(tree_layers(0)[0] == seq![root_leaf()]);
            assert(tree_layers(0)[0][0] == root_leaf());
        }
    } else {
        let prev = tree_layers((n - 1) as nat);
        lemma_tree_shape((n - 1) as nat);
        lemma_tree_wf((n - 1) as nat);
        let last = prev.last();
        let grown = expand_layer(last);
        assert(layer_ok(last, (n - 1) as nat));
        assert(3 * pow2(n) == 2 * (3 * pow2((n - 1) as nat))) by {
            lemma_pow2_unfold(n);
        }
        assert(2 * (3 * pow2((n - 1) as nat)) <= u32::MAX) by {
            if n < 30 {
                lemma_pow2_strictly_increases(n, 30);
            }
            assert(pow2(30) == 0x40000000);
        }
        assert forall|j: int| 0 <= j < grown.len() implies leaf_wf(#[trigger] grown[j])
            && leaf_bounded(grown[j], 3 * pow2(n)) by {
            lemma_children_wf(last[j / 2], 3 * pow2((n - 1) as nat));
        }
        assert forall|k: int| 0 <= k <= n implies layer_ok(#[trigger] tree_layers(n)[k], k as nat) by {
            if k < n {
                assert(tree_layers(n)[k] == prev[k]);
            } else {
                assert(tree_layers(n)[k] == grown);
            }
        }
    }
}

/// The Stern-Brocot tree, stored layer by layer.
pub struct SbTree {
    layers: Vec<Vec<SbLeaf>>,
}

impl View for SbTree {
    type V = Seq<Seq<SbLeaf>>;

    closed spec fn view(&self) -> Seq<Seq<SbLeaf>> {
        Seq::new(self.layers@.len(), |k: int| self.layers@[k]@)
    }
}

impl SbTree {
    /// Number of expansions below the root layer.
    pub open spec fn depth(&self) -> nat {
        (self@.len() - 1) as nat
    }

    /// The tree is exactly the unique tree of its depth.
    pub open spec fn wf(&self) -> bool {
        &&& self@.len() >= 1
        &&& self@ == tree_layers(self.depth())
    }

    /// A tree holding only the root layer.
    pub fn new() -> (r: Self)
        ensures
            r.wf(),
            r.depth() == 0,
            r@ == tree_layers(0),
    {
        let root = SbLeaf {
            ratio: Ratio { num: 3, den: 2 },
            left: Ratio { num: 1, den: 1 },
            right: Ratio { num: 2, den: 1 },
        };
        let mut layer: Vec<SbLeaf> = Vec::new();
        layer.push(root);
        let mut layers: Vec<Vec<SbLeaf>> = Vec::new();
        layers.push(layer);
        let r = SbTree { layers };
        proof {
            assert(r@ =~~= tree_layers(0));
        }
        r
    }

    /// Expands every node of the last layer into its two children and
    /// appends the resulting layer.
    #[verifier::loop_isolation(false)]
    pub fn add_layer(&mut self)
        requires
            old(self).wf(),
            old(self).depth() < MAX_DEPTH,
        ensures
            final(self).wf(),
            final(self).depth() == old(self).depth() + 1,
            final(self)@ == tree_layers((old(self).depth() + 1) as nat),
    {
        let d = self.layers.len() - 1;
        proof {
            lemma_tree_shape(d as nat);
            lemma_tree_wf(d as nat);
            lemma2_to64();
            if d < 30 {
                lemma_pow2_strictly_increases(d as nat, 30);
            }
            assert(pow2(30) == 0x40000000);
            assert(layer_ok(self@[d as int], d as nat));
        }
        let last_len = self.layers[d].len();
        let ghost grown = expand_layer(self@[d as int]);
        let mut layer: Vec<SbLeaf> = Vec::new();
        let mut j: usize = 0;
        while j < last_len
            invariant
                j <= last_len,
                layer@.len() == 2 * j,
                forall|t: int| 0 <= t < 2 * j ==> layer@[t] == grown[t],
            decreases last_len - j,
        {
            let leaf = self.layers[d][j];
            proof {
                assert(leaf_wf(leaf) && leaf_bounded(leaf, 3 * pow2(d as nat)));
            }
            let (l, r) = children(leaf);
            layer.push(l);
            layer.push(r);
            j += 1;
        }
        self.layers.push(layer);
        proof {
            assert(layer@ =~= grown);
            assert(self@ =~~= tree_layers((d + 1) as nat));
        }
    }

    /// Resets to the root layer, then expands `num` times: the result is
    /// the unique tree of depth `num`, whatever the tree held before.
    #[verifier::loop_isolation(false)]
    pub fn set_layers_number(&mut self, num: usize)
        requires
            old(self).wf(),
            num <= MAX_DEPTH,
        ensures
            final(self).wf(),
            final(self).depth() == num,
            final(self)@ == tree_layers(num as nat),
    {
        proof {
            lemma_tree_shape(old(self).depth());
        }
        self.layers.truncate(1);
        proof {
            assert(self@ =~~= tree_layers(0));
        }
        let mut i: usize = 0;
        while i < num
            invariant
                self.wf(),
                self.depth() == i,
                i <= num,
            decreases num - i,
        {
            self.add_layer();
            i += 1;
        }
    }

    /// Number of layers currently stored.
    pub fn layers_count(&self) -> (n: usize)
        ensures
            n == self@.len(),
    {
        self.layers.len()
    }

    /// Number of nodes in layer `k`.
    pub fn layer_len(&self, k: usize) -> (n: usize)
        requires
            k < self@.len(),
        ensures
            n == self@[k as int].len(),
    {
        self.layers[k].len()
    }

    /// The node at position `j` of layer `k`.
    pub fn leaf_at(&self, k: usize, j: usize) -> (l: SbLeaf)
        requires
            k < self@.len(),
            j < self@[k as int].len(),
        ensures
            l == self@[k as int][j as int],
    {
        self.layers[k][j]
    }
}

/// Two trees brought to the same depth are equal, whatever their earlier
/// shapes: generating a depth is deterministic and idempotent.
pub proof fn lemma_tree_deterministic(a: SbTree, b: SbTree)
    requires
        a.wf(),
        b.wf(),
        a.depth() == b.depth(),
    ensures
        a@ == b@,
{
}

/// Every node of a well-formed tree satisfies the node invariant: the
/// bounds straddle the ratio strictly and the ratio is exactly their
/// mediant.
pub proof fn lemma_tree_nodes_wf(t: SbTree)
    requires
        t.wf(),
        t.depth() <= MAX_DEPTH,
    ensures
        forall|k: int, j: int|
            0 <= k < t@.len() && 0 <= j < t@[k].len() ==> leaf_wf(#[trigger] t@[k][j]),
{
    lemma_tree_wf(t.depth());
    assert forall|k: int, j: int|
        0 <= k < t@.len() && 0 <= j < t@[k].len() implies leaf_wf(#[trigger] t@[k][j]) by {
        assert(layer_ok(t@[k], k as nat));
    }
}

/// One draw primitive per tree node: a triangle glyph centered at the
/// node's horizontal ratio position (left to the renderer, which maps
/// ratios logarithmically) and the exact vertical layer position, colored
/// by node parity within the layer.
#[derive(Clone, Copy, PartialEq, Eq, Structural, Debug)]
pub struct TreeGlyph {
    pub ratio: Ratio,
    pub y: Frac,
    pub color: usize,
}

/// Numerator of the vertical position of layer `k` out of `layers` total:
/// `h * 9/10 * (1/20 + k / (layers - 1))`, over denominator
/// `200 * (layers - 1)`.
pub open spec fn layer_y_num(h: int, layers: int, k: int) -> int {
    9 * h * ((layers - 1) + 20 * k)
}

/// Denominator of the vertical layer position.
pub open spec fn layer_y_den(layers: int) -> int {
    200 * (layers - 1)
}

/// The glyph for node `j` of layer `k` carries the node's ratio, the exact
/// layer height, and the parity color.
pub open spec fn glyph_matches(g: TreeGlyph, l: SbLeaf, h: int, layers: int, k: int, j: int) -> bool {
    &&& g.ratio == l.ratio
    &&& frac_is(g.y, layer_y_num(h, layers, k), layer_y_den(layers))
    &&& g.color == j % 2
}

/// The full glyph output for a tree with layer sequence `t` on a screen of
/// height `h`: one row per layer, one glyph per node, in order.
pub open spec fn tree_output_ok(out: Seq<Vec<TreeGlyph>>, t: Seq<Seq<SbLeaf>>, h: int) -> bool {
    &&& out.len() == t.len()
    &&& forall|k: int| 0 <= k < t.len() ==> #[trigger] out[k]@.len() == t[k].len()
    &&& forall|k: int, j: int|
        0 <= k < t.len() && 0 <= j < t[k].len() ==> glyph_matches(
            #[trigger] out[k]@[j],
            t[k][j],
            h,
            t.len() as int,
            k,
            j,
        )
}

impl SbTree {
    /// Computes the draw primitives for the whole tree.  Horizontal
    /// placement is logarithmic in the ratio and is left to the renderer;
    /// everything rational is fixed here.  A single-layer tree has no
    /// defined vertical spacing, so at least one expansion is required.
    #[verifier::loop_isolation(false)]
    pub fn draw(&self, screen: ScreenSize) -> (r: Vec<Vec<TreeGlyph>>)
        requires
            self.wf(),
            1 <= self.depth() <= MAX_DEPTH,
        ensures
            tree_output_ok(r@, self@, screen.h as int),
    {
        let layers_n = self.layers.len();
        let den: i64 = 200 * ((layers_n as i64) - 1);
        let mut out: Vec<Vec<TreeGlyph>> = Vec::new();
        let mut k: usize = 0;
        while k < layers_n
            invariant
                k <= layers_n,
                out@.len() == k,
                forall|kk: int| 0 <= kk < k ==> #[trigger] out@[kk]@.len() == self@[kk].len(),
                forall|kk: int, j: int|
                    0 <= kk < k && 0 <= j < self@[kk].len() ==> glyph_matches(
                        #[trigger] out@[kk]@[j],
                        self@[kk][j],
                        screen.h as int,
                        self@.len() as int,
                        kk,
                        j,
                    ),
            decreases layers_n - k,
        {
            proof {
                lemma_mul_le(9 * (screen.h as int), (layers_n - 1) + 20 * k, 9 * (u32::MAX as int), 630);
            }
            let num: i64 = 9 * (screen.h as i64) * (((layers_n as i64) - 1) + 20 * (k as i64));
            let layer_len = self.layers[k].len();
            let mut row: Vec<TreeGlyph> = Vec::new();
            let mut j: usize = 0;
            while j < layer_len
                invariant
                    j <= layer_len,
                    row@.len() == j,
                    forall|t: int|
                        0 <= t < j ==> glyph_matches(
                            #[trigger] row@[t],
                            self@[k as int][t],
                            screen.h as int,
                            self@.len() as int,
                            k as int,
                            t,
                        ),
                decreases layer_len - j,
            {
                let leaf = self.layers[k][j];
                row.push(TreeGlyph { ratio: leaf.ratio, y: Frac { num, den }, color: j % 2 });
                j += 1;
            }
            out.push(row);
            k += 1;
        }
        out
    }
}

/// Both mediant children of a node, left then right.
pub fn children(parent: SbLeaf) -> (r: (SbLeaf, SbLeaf))
    requires
        parent.left.num + parent.ratio.num <= u32::MAX,
        parent.left.den + parent.ratio.den <= u32::MAX,
        parent.ratio.num + parent.right.num <= u32::MAX,
        parent.ratio.den + parent.right.den <= u32::MAX,
    ensures
        r.0 == left_child(parent),
        r.1 == right_child(parent),
{
    let left = SbLeaf {
        ratio: median(parent.left, parent.ratio),
        left: parent.left,
        right: parent.ratio,
    };
    let right = SbLeaf {
        ratio: median(parent.ratio, parent.right),
        left: parent.ratio,
        right: parent.right,
    };
    (left, right)
}

} // verus!
