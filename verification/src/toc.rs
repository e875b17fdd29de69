//! The table of contents: a forest of headings, built from a flat stream of
//! levelled elements.

use vstd::prelude::*;
use vstd::string::*;
use crate::common::{indent, spec_indent};
use crate::markup::{encode_text, text_escaped};
use crate::text::{decimal, decimal_text, join, join_texts, texts};

verus! {

/// A heading of the table of contents with the headings below it.
#[derive(Debug)]
pub struct Element {
    /// How deep the heading lies; a chapter is at level 1.
    pub level: i32,
    /// Where the heading points.
    pub url: String,
    /// What the heading says.
    pub title: String,
    /// The headings below this one, in the order in which they were added.
    pub children: Vec<Element>,
}

/// What an [`Element`] stands for: a node of a tree of headings.
pub ghost struct Node {
    pub level: int,
    pub url: Seq<char>,
    pub title: Seq<char>,
    pub children: Seq<Node>,
}

impl View for Element {
    type V = Node;

    open spec fn view(&self) -> Node
        decreases self,
    {
        Node {
            level: self.level as int,
            url: self.url@,
            title: self.title@,
            children: nodes(self.children@),
        }
    }
}

/// The nodes that a sequence of elements stands for.
pub open spec fn nodes(v: Seq<Element>) -> Seq<Node>
    decreases v,
{
    if v.len() == 0 {
        Seq::empty()
    } else {
        nodes(v.drop_last()).push(v.last()@)
    }
}

/// The nodes of a sequence of elements are the views of the elements, one
/// for one.
pub proof fn nodes_are_views(v: Seq<Element>)
    ensures
        nodes(v).len() == v.len(),
        forall|i: int| 0 <= i < v.len() ==> (#[trigger] nodes(v)[i]) == v[i]@,
    decreases v.len(),
{
    if v.len() > 0 {
        nodes_are_views(v.drop_last());
        assert(nodes(v) == nodes(v.drop_last()).push(v.last()@));
    } else {
        assert(nodes(v) == Seq::<Node>::empty());
    }
}

/// The forest after `e` was added. The new node goes below the last node of
/// the forest as long as that node lies less deep than `e`; where no such
/// node is left it is appended.
pub open spec fn insert(forest: Seq<Node>, e: Node) -> Seq<Node>
    decreases forest,
{
    if forest.len() > 0 && e.level > forest.last().level {
        forest.drop_last().push(
            Node { children: insert(forest.last().children, e), ..forest.last() },
        )
    } else {
        forest.push(e)
    }
}

/// A heading by itself, without what lies below it.
pub ghost struct Heading {
    pub level: int,
    pub url: Seq<char>,
    pub title: Seq<char>,
}

/// The heading at the top of a node.
pub open spec fn heading(n: Node) -> Heading {
    Heading { level: n.level, url: n.url, title: n.title }
}

/// The headings of a forest in reading order: each heading before those
/// below it, and those before the next heading at its own depth.
pub open spec fn flatten(forest: Seq<Node>) -> Seq<Heading>
    decreases forest,
{
    if forest.len() == 0 {
        Seq::empty()
    } else {
        flatten(forest.drop_last()).push(heading(forest.last())) + flatten(
            forest.last().children,
        )
    }
}

/// The number of headings in a forest.
pub open spec fn count(forest: Seq<Node>) -> nat {
    flatten(forest).len()
}

/// Reading order goes through a forest tree by tree.
pub proof fn flatten_concat(a: Seq<Node>, b: Seq<Node>)
    ensures
        flatten(a + b) == flatten(a) + flatten(b),
    decreases b.len(),
{
    if b.len() == 0 {
        assert(a + b =~= a);
        assert(flatten(b) =~= Seq::<Heading>::empty());
        assert(flatten(a) + flatten(b) =~= flatten(a));
    } else {
        flatten_concat(a, b.drop_last());
        assert((a + b).drop_last() =~= a + b.drop_last());
        assert((a + b).last() == b.last());
        assert(flatten(a + b) == flatten((a + b).drop_last()).push(heading(b.last())) + flatten(
            b.last().children,
        ));
        assert(flatten(b) == flatten(b.drop_last()).push(heading(b.last())) + flatten(
            b.last().children,
        ));
        assert(flatten(a + b) =~= flatten(a) + flatten(b));
    }
}

/// Adding an element changes nothing that was there: in reading order the
/// forest is what it was before, followed by the new heading and what lies
/// below it.
pub proof fn insert_appends(forest: Seq<Node>, e: Node)
    ensures
        flatten(insert(forest, e)) == flatten(forest) + flatten(seq![e]),
        insert(forest, e).len() >= forest.len(),
        insert(forest, e).len() > 0,
    decreases forest,
{
    let single = seq![e];
    assert(single.drop_last() =~= Seq::<Node>::empty());
    assert(flatten(single.drop_last()) =~= Seq::<Heading>::empty());
    assert(flatten(single) == flatten(single.drop_last()).push(heading(e)) + flatten(e.children));
    if forest.len() > 0 && e.level > forest.last().level {
        let last = forest.last();
        insert_appends(last.children, e);
        let grown = Node { children: insert(last.children, e), ..last };
        let after = forest.drop_last().push(grown);
        assert(after.drop_last() =~= forest.drop_last());
        assert(flatten(after) == flatten(after.drop_last()).push(heading(grown)) + flatten(
            grown.children,
        ));
        assert(flatten(forest) == flatten(forest.drop_last()).push(heading(last)) + flatten(
            last.children,
        ));
        assert(flatten(after) =~= flatten(forest) + flatten(single));
    } else {
        let after = forest.push(e);
        assert(after.drop_last() =~= forest);
        assert(flatten(after) == flatten(after.drop_last()).push(heading(e)) + flatten(e.children));
        assert(flatten(after) =~= flatten(forest) + flatten(single));
    }
}

/// Whether the levels of a forest are in step with its shape: every tree of
/// the forest begins at `level`, and what lies below a heading lies exactly
/// one level deeper.
pub open spec fn in_step(forest: Seq<Node>, level: int) -> bool
    decreases forest,
{
    forest.len() == 0 || (in_step(forest.drop_last(), level) && forest.last().level == level
        && in_step(forest.last().children, level + 1))
}

/// How deep the forest is along its last headings: the number of headings
/// on the way from the last tree down to the heading that was added last.
pub open spec fn last_depth(forest: Seq<Node>) -> nat
    decreases forest,
{
    if forest.len() == 0 {
        0
    } else {
        1 + last_depth(forest.last().children)
    }
}

/// Where the levels are in step with the shape, and the new heading lies at
/// most one level deeper than the heading added last, the new heading goes
/// below the last heading of the level above its own, and the levels stay in
/// step. A heading at the level of the trees becomes a new tree, behind all
/// the others.
pub proof fn insert_keeps_step(forest: Seq<Node>, e: Node, level: int)
    requires
        in_step(forest, level),
        in_step(e.children, e.level + 1),
        level <= e.level <= level + last_depth(forest),
    ensures
        in_step(insert(forest, e), level),
        e.level == level ==> insert(forest, e) == forest.push(e),
        e.level > level ==> insert(forest, e).len() == forest.len(),
    decreases forest,
{
    if forest.len() > 0 && e.level > forest.last().level {
        let last = forest.last();
        insert_keeps_step(last.children, e, level + 1);
        let grown = Node { children: insert(last.children, e), ..last };
        let after = forest.drop_last().push(grown);
        assert(after.drop_last() =~= forest.drop_last());
        assert(after.last() == grown);
    } else {
        let after = forest.push(e);
        assert(after.drop_last() =~= forest);
        assert(after.last() == e);
    }
}

/// Proves that the children of an element's view are the views of its
/// children.
pub proof fn children_view(e: &Element)
    ensures
        e@.children == nodes(e.children@),
        e@.level == e.level,
        e@.url == e.url@,
        e@.title == e.title@,
{

}

/// The node with its level set to `level`, and each child that would then not
/// lie deeper than its parent moved down in the same way.
pub open spec fn relevel(n: Node, level: int) -> Node
    decreases n,
{
    Node { level, children: relevel_children(n.children, level), ..n }
}

/// The children of a node that was moved to `level`: those at `level` or
/// above it go one below, with what hangs on them.
pub open spec fn relevel_children(ns: Seq<Node>, level: int) -> Seq<Node>
    decreases ns,
{
    if ns.len() == 0 {
        Seq::empty()
    } else {
        relevel_children(ns.drop_last(), level).push(
            if ns.last().level <= level {
                relevel(ns.last(), level + 1)
            } else {
                ns.last()
            },
        )
    }
}

/// Whether every level that [`relevel`] assigns fits the machine integer
/// that holds a level.
pub open spec fn relevel_fits(n: Node, level: int) -> bool
    decreases n,
{
    level <= i32::MAX && relevel_children_fit(n.children, level)
}

/// [`relevel_fits`] for the children of a node moved to `level`.
pub open spec fn relevel_children_fit(ns: Seq<Node>, level: int) -> bool
    decreases ns,
{
    ns.len() == 0 || (relevel_children_fit(ns.drop_last(), level) && (ns.last().level <= level
        ==> relevel_fits(ns.last(), level + 1)))
}

/// The child as it hangs below a parent at `level`.
pub open spec fn as_child(child: Node, level: int) -> Node {
    if child.level <= level {
        relevel(child, level + 1)
    } else {
        child
    }
}

/// Whether every heading of the forest lies at level 1 or deeper, as the
/// headings of a document do.
pub open spec fn levelled(forest: Seq<Node>) -> bool
    decreases forest,
{
    forest.len() == 0 || (levelled(forest.drop_last()) && forest.last().level >= 1 && levelled(
        forest.last().children,
    ))
}

/// Whether the heading and all that lies below it lie at level 1 or deeper.
pub open spec fn node_levelled(n: Node) -> bool {
    n.level >= 1 && levelled(n.children)
}

/// Adding a heading keeps every heading at level 1 or deeper.
pub proof fn insert_keeps_levels(forest: Seq<Node>, e: Node)
    requires
        levelled(forest),
        node_levelled(e),
    ensures
        levelled(insert(forest, e)),
    decreases forest,
{
    if forest.len() > 0 && e.level > forest.last().level {
        let last = forest.last();
        insert_keeps_levels(last.children, e);
        let grown = Node { children: insert(last.children, e), ..last };
        let after = forest.drop_last().push(grown);
        assert(after.drop_last() =~= forest.drop_last());
        assert(after.last() == grown);
    } else {
        let after = forest.push(e);
        assert(after.drop_last() =~= forest);
        assert(after.last() == e);
    }
}

/// Among headings at level 1 or deeper, a heading at level 1 becomes a new
/// tree of the forest, behind all the others.
pub proof fn level_one_is_a_root(forest: Seq<Node>, e: Node)
    requires
        levelled(forest),
        e.level == 1,
    ensures
        insert(forest, e) == forest.push(e),
{
}

/// Moving a heading to a level of 1 or deeper leaves it, and all that lies
/// below it, at level 1 or deeper.
pub proof fn relevel_keeps_levels(n: Node, level: int)
    requires
        levelled(n.children),
        level >= 1,
    ensures
        node_levelled(relevel(n, level)),
    decreases n, 1nat,
{
    relevel_children_keep_levels(n.children, level);
}

/// [`relevel_keeps_levels`] for the children of a heading that was moved.
pub proof fn relevel_children_keep_levels(ns: Seq<Node>, level: int)
    requires
        levelled(ns),
        level >= 1,
    ensures
        levelled(relevel_children(ns, level)),
    decreases ns, 0nat,
{
    if ns.len() > 0 {
        relevel_children_keep_levels(ns.drop_last(), level);
        let moved = if ns.last().level <= level {
            relevel(ns.last(), level + 1)
        } else {
            ns.last()
        };
        if ns.last().level <= level {
            relevel_keeps_levels(ns.last(), level + 1);
        }
        let after = relevel_children(ns.drop_last(), level).push(moved);
        assert(relevel_children(ns, level) == after);
        assert(after.drop_last() =~= relevel_children(ns.drop_last(), level));
        assert(after.last() == moved);
    }
}

impl Element {
    /// A heading at level 1 with nothing below it.
    pub fn new(url: &str, title: &str) -> (r: Self)
        ensures
            r@ == (Node { level: 1, url: url@, title: title@, children: Seq::empty() }),
            node_levelled(r@),
    {
        let r = Element { level: 1, url: url.to_owned(), title: title.to_owned(), children: Vec::new() };
        proof {
            children_view(&r);
            assert(nodes(r.children@) =~= Seq::<Node>::empty());
        }
        r
    }

    /// Sets the level of the heading, which is 1 or deeper. What lies below
    /// it keeps its level.
    pub fn level(self, level: i32) -> (r: Self)
        requires
            level >= 1,
        ensures
            r@ == (Node { level: level as int, ..self@ }),
            levelled(self@.children) ==> node_levelled(r@),
    {
        let mut me = self;
        proof {
            children_view(&me);
        }
        me.level = level;
        proof {
            children_view(&me);
        }
        me
    }

    /// Moves the heading to `level` and pushes down what would otherwise not
    /// lie below it any more.
    fn level_up(&mut self, level: i32)
        requires
            relevel_fits(old(self)@, level as int),
        ensures
            final(self)@ == relevel(old(self)@, level as int),
        decreases *old(self),
    {
        proof {
            children_view(self);
        }
        self.level = level;
        let ghost before = self.children@;
        let mut i: usize = 0;
        assert(nodes(self.children@.take(0)) =~= relevel_children(nodes(before.take(0)), level as int));
        while i < self.children.len()
            invariant
                i <= self.children.len(),
                self.children@.len() == before.len(),
                before == old(self).children@,
                self.level == level,
                self.url == old(self).url,
                self.title == old(self).title,
                relevel_children_fit(nodes(before), level as int),
                forall|j: int| i <= j < before.len() ==> self.children@[j] == before[j],
                nodes(self.children@.take(i as int)) == relevel_children(
                    nodes(before.take(i as int)),
                    level as int,
                ),
            decreases self.children.len() - i,
        {
            let ghost done = self.children@.take(i as int);
            proof {
                fits_prefix(before, i as int + 1, level as int);
                nodes_push(before.take(i as int), before[i as int]);
                assert(before.take(i as int + 1) =~= before.take(i as int).push(before[i as int]));
                assert(nodes(before.take(i as int + 1)).drop_last() =~= nodes(before.take(i as int)));
            }
            if self.children[i].level <= level {
                proof {
                    children_view(&self.children@[i as int]);
                }
                self.children[i].level_up(level + 1);
            }
            proof {
                nodes_push(done, self.children@[i as int]);
                assert(self.children@.take(i as int + 1) =~= done.push(self.children@[i as int]));
            }
            i = i + 1;
        }
        proof {
            assert(self.children@.take(i as int) =~= self.children@);
            assert(before.take(i as int) =~= before);
            children_view(self);
        }
    }

    /// Hangs `child` below this heading, as the last of its children. A child
    /// that does not lie deeper than the heading is moved one level below it
    /// first, with what hangs on the child.
    pub fn child(self, child: Element) -> (r: Self)
        requires
            child@.level <= self@.level ==> relevel_fits(child@, self@.level + 1),
        ensures
            r@ == (Node {
                children: self@.children.push(as_child(child@, self@.level)),
                ..self@
            }),
            node_levelled(self@) && node_levelled(child@) ==> node_levelled(r@),
    {
        let mut me = self;
        let mut child = child;
        proof {
            children_view(&me);
            children_view(&child);
            if node_levelled(self@) && node_levelled(child@) {
                if child@.level <= self@.level {
                    relevel_keeps_levels(child@, self@.level + 1);
                }
                let grown = self@.children.push(as_child(child@, self@.level));
                assert(grown.drop_last() =~= self@.children);
                assert(grown.last() == as_child(child@, self@.level));
                assert(levelled(grown));
            }
        }
        if child.level <= me.level {
            child.level_up(me.level + 1);
        }
        let ghost before = me.children@;
        me.children.push(child);
        proof {
            children_view(&me);
            nodes_push(before, child);
        }
        me
    }

    /// Adds `element` below this heading: below the last child as long as
    /// that one lies less deep than `element`, else as a new last child.
    pub fn add(&mut self, element: Element)
        ensures
            final(self)@ == (Node {
                children: insert(old(self)@.children, element@),
                ..old(self)@
            }),
    {
        proof {
            children_view(self);
        }
        add_to(&mut self.children, element);
        proof {
            children_view(self);
        }
    }
}

/// The nodes of a sequence that got one more element.
pub proof fn nodes_push(v: Seq<Element>, e: Element)
    ensures
        nodes(v.push(e)) == nodes(v).push(e@),
{
    assert(v.push(e).drop_last() =~= v);
    assert(nodes(v.push(e)) == nodes(v.push(e).drop_last()).push(v.push(e).last()@));
}

/// The nodes of two sequences of elements, one after the other.
pub proof fn nodes_concat(a: Seq<Element>, b: Seq<Element>)
    ensures
        nodes(a + b) == nodes(a) + nodes(b),
{
    nodes_are_views(a + b);
    nodes_are_views(a);
    nodes_are_views(b);
    assert(nodes(a + b) =~= nodes(a) + nodes(b));
}

/// Where the children of a node fit, the first `k` of them fit, and so does
/// the one after them.
proof fn fits_prefix(v: Seq<Element>, k: int, level: int)
    requires
        0 < k <= v.len(),
        relevel_children_fit(nodes(v), level),
    ensures
        relevel_children_fit(nodes(v.take(k)), level),
        v[k - 1]@.level <= level ==> relevel_fits(v[k - 1]@, level + 1),
    decreases v.len(),
{
    nodes_are_views(v);
    assert(nodes(v) == nodes(v.drop_last()).push(v.last()@));
    assert(nodes(v).drop_last() =~= nodes(v.drop_last()));
    if k < v.len() {
        fits_prefix(v.drop_last(), k, level);
        assert(v.drop_last().take(k) =~= v.take(k));
    } else {
        assert(v.take(k) =~= v);
    }
}

fn add_to(list: &mut Vec<Element>, element: Element)
    ensures
        nodes(final(list)@) == insert(nodes(old(list)@), element@),
    decreases old(list)@,
{
    let n = list.len();
    if n > 0 && element.level > list[n - 1].level {
        let ghost before = list@;
        let mut last = list.pop().unwrap();
        proof {
            children_view(&last);
            assert(last == before[n - 1]);
        }
        add_to(&mut last.children, element);
        proof {
            children_view(&last);
        }
        list.push(last);
        proof {
            nodes_are_views(list@);
            nodes_are_views(before);
            assert(nodes(list@) =~= insert(nodes(before), element@));
        }
    } else {
        let ghost before = list@;
        list.push(element);
        proof {
            nodes_are_views(list@);
            nodes_are_views(before);
            assert(nodes(list@) =~= insert(nodes(before), element@));
        }
    }
}

/// The name of the list element: an ordered list where the headings are
/// numbered, an unordered one where they are not.
pub open spec fn list_tag(numbered: bool) -> Seq<char> {
    if numbered {
        "ol"@
    } else {
        "ul"@
    }
}

/// The list item for a node, with the list of its children inside. A node
/// without a title gives no text.
pub open spec fn item_text(n: Node, numbered: bool) -> Seq<char>
    decreases n, 0nat,
{
    if n.title.len() == 0 {
        Seq::empty()
    } else if n.children.len() == 0 {
        "<li><a href=\""@ + n.url + "\">"@ + text_escaped(n.title) + "</a></li>"@
    } else {
        "<li>\n  <a href=\""@ + n.url + "\">"@ + text_escaped(n.title) + "</a>\n"@ + spec_indent(
            list_text(n.children, numbered),
            1,
        ) + "\n</li>"@
    }
}

/// The list items of a forest, one text for each tree.
pub open spec fn item_texts(forest: Seq<Node>, numbered: bool) -> Seq<Seq<char>>
    decreases forest, 0nat,
{
    if forest.len() == 0 {
        Seq::empty()
    } else {
        item_texts(forest.drop_last(), numbered).push(item_text(forest.last(), numbered))
    }
}

/// The list element that holds the items of a forest, one on each line.
pub open spec fn list_text(forest: Seq<Node>, numbered: bool) -> Seq<char>
    decreases forest, 1nat,
{
    "<"@ + list_tag(numbered) + ">\n"@ + spec_indent(
        join(item_texts(forest, numbered), seq!['\n']),
        1,
    ) + "\n</"@ + list_tag(numbered) + ">"@
}

/// The navigation point for a node, numbered `offset + 1`, with the points
/// for its children inside, numbered on from there in reading order.
pub open spec fn point_text(n: Node, offset: nat) -> Seq<char>
    decreases n, 0nat,
{
    "<navPoint id=\"navPoint-"@ + decimal(offset + 1) + "\" playOrder=\""@ + decimal(offset + 1)
        + "\">\n  <navLabel>\n    <text>"@ + text_escaped(n.title)
        + "</text>\n  </navLabel>\n  <content src=\""@ + n.url + "\"/>"@ + (if n.children.len()
        == 0 {
        Seq::empty()
    } else {
        seq!['\n'] + spec_indent(points_text(n.children, offset + 1), 1)
    }) + "\n</navPoint>"@
}

/// The navigation points of a forest, one text for each tree. The first is
/// numbered `offset + 1`.
pub open spec fn point_texts(forest: Seq<Node>, offset: nat) -> Seq<Seq<char>>
    decreases forest, 0nat,
{
    if forest.len() == 0 {
        Seq::empty()
    } else {
        point_texts(forest.drop_last(), offset).push(
            point_text(forest.last(), offset + count(forest.drop_last())),
        )
    }
}

/// The navigation points of a forest, one below the other.
pub open spec fn points_text(forest: Seq<Node>, offset: nat) -> Seq<char>
    decreases forest, 1nat,
{
    join(point_texts(forest, offset), seq!['\n'])
}

/// One entry of the flat navigation map.
#[derive(Debug, Clone)]
pub struct NavPoint {
    /// Where the entry points.
    pub url: String,
    /// What the entry says.
    pub title: String,
    /// The place of the entry in reading order, counted from 1.
    pub order: usize,
}

/// What a [`NavPoint`] stands for.
pub ghost struct Point {
    pub url: Seq<char>,
    pub title: Seq<char>,
    pub order: nat,
}

impl View for NavPoint {
    type V = Point;

    open spec fn view(&self) -> Point {
        Point { url: self.url@, title: self.title@, order: self.order as nat }
    }
}

/// The flat navigation map of a forest: its headings in reading order, each
/// with its place, counted from 1.
pub open spec fn nav_points(forest: Seq<Node>) -> Seq<Point> {
    Seq::new(
        flatten(forest).len(),
        |i: int|
            Point {
                url: flatten(forest)[i].url,
                title: flatten(forest)[i].title,
                order: (i + 1) as nat,
            },
    )
}

/// The flat navigation map holds every heading once, in reading order, and
/// numbers them 1, 2, 3 and so on without a gap.
pub proof fn nav_points_count_up(forest: Seq<Node>, i: int)
    requires
        0 <= i < count(forest),
    ensures
        nav_points(forest).len() == count(forest),
        nav_points(forest)[i].order == i + 1,
        nav_points(forest)[i].url == flatten(forest)[i].url,
        nav_points(forest)[i].title == flatten(forest)[i].title,
{
}

/// Adding a heading leaves the entries of the flat navigation map as they
/// were, numbers included, and puts the new ones behind them.
pub proof fn nav_points_grow_at_the_end(forest: Seq<Node>, e: Node, i: int)
    requires
        0 <= i < count(forest),
    ensures
        count(insert(forest, e)) == count(forest) + 1 + count(e.children),
        nav_points(insert(forest, e))[i] == nav_points(forest)[i],
{
    insert_appends(forest, e);
    let single = seq![e];
    assert(single.drop_last() =~= Seq::<Node>::empty());
    assert(flatten(single.drop_last()) =~= Seq::<Heading>::empty());
    assert(flatten(single) == flatten(single.drop_last()).push(heading(e)) + flatten(e.children));
}

/// The headings that a vector of navigation points holds, whatever their
/// numbers.
pub open spec fn point_headings(v: Seq<NavPoint>) -> Seq<(Seq<char>, Seq<char>)> {
    Seq::new(v.len(), |i: int| (v[i].url@, v[i].title@))
}

/// The headings of a forest in reading order, without their levels.
pub open spec fn plain_headings(forest: Seq<Node>) -> Seq<(Seq<char>, Seq<char>)> {
    Seq::new(flatten(forest).len(), |i: int| (flatten(forest)[i].url, flatten(forest)[i].title))
}

/// Appends the headings of `list`, in reading order, to `out`.
fn collect_headings(list: &Vec<Element>, out: &mut Vec<NavPoint>)
    ensures
        point_headings(final(out)@) == point_headings(old(out)@) + plain_headings(nodes(list@)),
    decreases list@,
{
    let mut i: usize = 0;
    proof {
        assert(nodes(list@.take(0)) =~= Seq::<Node>::empty());
        assert(plain_headings(nodes(list@.take(0))) =~= Seq::empty());
        assert(point_headings(out@) + plain_headings(nodes(list@.take(0))) =~= point_headings(
            out@,
        ));
    }
    while i < list.len()
        invariant
            i <= list.len(),
            point_headings(out@) == point_headings(old(out)@) + plain_headings(
                nodes(list@.take(i as int)),
            ),
        decreases list.len() - i,
    {
        let e = &list[i];
        let ghost before = out@;
        let ghost done = nodes(list@.take(i as int));
        out.push(NavPoint { url: e.url.clone(), title: e.title.clone(), order: 0 });
        let ghost pushed = out@;
        collect_headings(&e.children, out);
        proof {
            children_view(e);
            assert(list@.take(i as int + 1) =~= list@.take(i as int).push(*e));
            nodes_push(list@.take(i as int), *e);
            let next = nodes(list@.take(i as int + 1));
            assert(next.drop_last() =~= done);
            assert(flatten(next) == flatten(next.drop_last()).push(heading(next.last())) + flatten(
                next.last().children,
            ));
            assert(point_headings(pushed) =~= point_headings(before).push((e.url@, e.title@)));
            assert(point_headings(out@) =~= point_headings(old(out)@) + plain_headings(next));
        }
        i = i + 1;
    }
    assert(list@.take(i as int) =~= list@);
}

/// The table of contents: the headings at the top, each with those below it.
#[derive(Debug)]
pub struct Toc {
    /// The headings at the top, in the order in which they were added.
    pub elements: Vec<Element>,
}

impl View for Toc {
    type V = Seq<Node>;

    open spec fn view(&self) -> Seq<Node> {
        nodes(self.elements@)
    }
}

impl Toc {
    /// A table of contents without headings.
    pub fn new() -> (r: Self)
        ensures
            r@ == Seq::<Node>::empty(),
            levelled(r@),
    {
        let r = Toc { elements: Vec::new() };
        assert(nodes(r.elements@) =~= Seq::<Node>::empty());
        r
    }

    /// Whether the table holds no heading.
    pub fn is_empty(&self) -> (r: bool)
        ensures
            r == (self@.len() == 0),
    {
        proof {
            nodes_are_views(self.elements@);
        }
        self.elements.len() == 0
    }

    /// Adds a heading. It goes below the heading that was added last at the
    /// level above its own; where the levels leave a gap, below the nearest
    /// heading that lies less deep; and to the top where there is none.
    /// Nothing that is in the table moves.
    pub fn add(&mut self, element: Element) -> (r: &mut Self)
        ensures
            r@ == insert(old(self)@, element@),
            flatten(r@) == flatten(old(self)@) + flatten(seq![element@]),
            levelled(old(self)@) && node_levelled(element@) ==> levelled(r@),
            levelled(old(self)@) && element@.level == 1 ==> r@ == old(self)@.push(element@),
            *final(self) == *final(r),
    {
        proof {
            insert_appends(self@, element@);
            if levelled(self@) && node_levelled(element@) {
                insert_keeps_levels(self@, element@);
            }
        }
        add_to(&mut self.elements, element);
        self
    }

    /// The flat navigation map: every heading in reading order, numbered
    /// from 1.
    pub fn nav_points(&self) -> (r: Vec<NavPoint>)
        ensures
            r@.len() == count(self@),
            forall|i: int| 0 <= i < r@.len() ==> (#[trigger] r@[i])@ == nav_points(self@)[i],
    {
        let mut out: Vec<NavPoint> = Vec::new();
        collect_headings(&self.elements, &mut out);
        let ghost plain = point_headings(out@);
        assert(plain =~= plain_headings(self@)) by {
            assert(point_headings(Seq::<NavPoint>::empty()) =~= Seq::empty());
        }
        let mut i: usize = 0;
        while i < out.len()
            invariant
                i <= out.len(),
                point_headings(out@) == plain,
                plain == plain_headings(self@),
                forall|j: int| 0 <= j < i ==> (#[trigger] out@[j]).order == j + 1,
            decreases out.len() - i,
        {
            let ghost before = out@;
            out[i].order = i + 1;
            assert(point_headings(out@) =~= point_headings(before)) by {
                assert(forall|j: int| 0 <= j < out@.len() ==> out@[j].url == before[j].url);
            }
            i = i + 1;
        }
        assert forall|i: int| 0 <= i < out@.len() implies (#[trigger] out@[i])@ == nav_points(
            self@,
        )[i] by {
            assert(point_headings(out@)[i] == plain_headings(self@)[i]);
        }
        assert(point_headings(out@).len() == plain_headings(self@).len());
        out
    }
}

/// The texts of a vector of strings after one more string was pushed.
proof fn texts_push(v: Seq<String>, s: String)
    ensures
        texts(v.push(s)) == texts(v).push(s@),
{
    assert(texts(v.push(s)) =~= texts(v).push(s@));
}

/// The list element for `list`, by [`list_text`].
fn render_list(list: &Vec<Element>, numbered: bool) -> (r: String)
    ensures
        r@ == list_text(nodes(list@), numbered),
    decreases list@, 1nat,
{
    let mut items: Vec<String> = Vec::new();
    let mut i: usize = 0;
    proof {
        assert(nodes(list@.take(0)) =~= Seq::<Node>::empty());
        assert(texts(items@) =~= item_texts(nodes(list@.take(0)), numbered));
    }
    while i < list.len()
        invariant
            i <= list.len(),
            texts(items@) == item_texts(nodes(list@.take(i as int)), numbered),
        decreases list.len() - i,
    {
        let item = list[i].render(numbered);
        proof {
            let next = nodes(list@.take(i as int + 1));
            assert(list@.take(i as int + 1) =~= list@.take(i as int).push(list@[i as int]));
            nodes_push(list@.take(i as int), list@[i as int]);
            assert(next.drop_last() =~= nodes(list@.take(i as int)));
            assert(item_texts(next, numbered) == item_texts(next.drop_last(), numbered).push(
                item_text(next.last(), numbered),
            ));
            texts_push(items@, item);
        }
        items.push(item);
        i = i + 1;
    }
    proof {
        assert(list@.take(i as int) =~= list@);
        reveal_strlit("\n");
        assert("\n"@ =~= seq!['\n']);
    }
    let tag = if numbered {
        "ol"
    } else {
        "ul"
    };
    let inner = indent(join_texts(&items, "\n").as_str(), 1);
    let mut out = "<".to_owned();
    out.append(tag);
    out.append(">\n");
    out.append(inner.as_str());
    out.append("\n</");
    out.append(tag);
    out.append(">");
    out
}

impl Element {
    /// The list item for this heading, with the list of the headings below
    /// it inside. A heading without a title gives no text.
    pub fn render(&self, numbered: bool) -> (r: String)
        ensures
            r@ == item_text(self@, numbered),
        decreases *self, 0nat,
    {
        proof {
            children_view(self);
            nodes_are_views(self.children@);
        }
        if self.title.as_str().is_empty() {
            return String::new();
        }
        let title = encode_text(self.title.as_str());
        if self.children.len() == 0 {
            let mut out = "<li><a href=\"".to_owned();
            out.append(self.url.as_str());
            out.append("\">");
            out.append(title.as_str());
            out.append("</a></li>");
            out
        } else {
            let below = render_list(&self.children, numbered);
            let inner = indent(below.as_str(), 1);
            let mut out = "<li>\n  <a href=\"".to_owned();
            out.append(self.url.as_str());
            out.append("\">");
            out.append(title.as_str());
            out.append("</a>\n");
            out.append(inner.as_str());
            out.append("\n</li>");
            out
        }
    }

    /// The navigation point for this heading, numbered `offset + 1`, with
    /// the points for the headings below it inside.
    fn render_point(&self, offset: usize) -> (r: (usize, String))
        requires
            offset + 1 + count(self@.children) <= usize::MAX,
        ensures
            r.0 == offset + 1 + count(self@.children),
            r.1@ == point_text(self@, offset as nat),
        decreases *self, 0nat,
    {
        proof {
            children_view(self);
            nodes_are_views(self.children@);
        }
        let number = decimal_text(offset + 1);
        let title = encode_text(self.title.as_str());
        let mut out = "<navPoint id=\"navPoint-".to_owned();
        out.append(number.as_str());
        out.append("\" playOrder=\"");
        out.append(number.as_str());
        out.append("\">\n  <navLabel>\n    <text>");
        out.append(title.as_str());
        out.append("</text>\n  </navLabel>\n  <content src=\"");
        out.append(self.url.as_str());
        out.append("\"/>");
        let mut next = offset + 1;
        if self.children.len() == 0 {
            assert(out@ + Seq::<char>::empty() =~= out@);
            assert(flatten(self@.children) =~= Seq::<Heading>::empty());
        } else {
            let (after, below) = render_points(&self.children, offset + 1);
            let inner = indent(below.as_str(), 1);
            let ghost head = out@;
            out.append("\n");
            out.append(inner.as_str());
            proof {
                reveal_strlit("\n");
                assert("\n"@ =~= seq!['\n']);
                assert(out@ =~= head + (seq!['\n'] + inner@));
            }
            next = after;
        }
        out.append("\n</navPoint>");
        (next, out)
    }
}

/// The navigation points for `list`, the first numbered `offset + 1`, by
/// [`points_text`].
fn render_points(list: &Vec<Element>, offset: usize) -> (r: (usize, String))
    requires
        offset + count(nodes(list@)) <= usize::MAX,
    ensures
        r.0 == offset + count(nodes(list@)),
        r.1@ == points_text(nodes(list@), offset as nat),
    decreases list@, 1nat,
{
    let mut items: Vec<String> = Vec::new();
    let mut next: usize = offset;
    let mut i: usize = 0;
    proof {
        assert(nodes(list@.take(0)) =~= Seq::<Node>::empty());
        assert(texts(items@) =~= point_texts(nodes(list@.take(0)), offset as nat));
    }
    while i < list.len()
        invariant
            i <= list.len(),
            offset + count(nodes(list@)) <= usize::MAX,
            next == offset + count(nodes(list@.take(i as int))),
            texts(items@) == point_texts(nodes(list@.take(i as int)), offset as nat),
        decreases list.len() - i,
    {
        proof {
            let done = nodes(list@.take(i as int));
            let grown = nodes(list@.take(i as int + 1));
            assert(list@.take(i as int + 1) =~= list@.take(i as int).push(list@[i as int]));
            nodes_push(list@.take(i as int), list@[i as int]);
            assert(grown.drop_last() =~= done);
            assert(flatten(grown) == flatten(grown.drop_last()).push(heading(grown.last()))
                + flatten(grown.last().children));
            assert(list@ =~= list@.take(i as int + 1) + list@.skip(i as int + 1));
            nodes_concat(list@.take(i as int + 1), list@.skip(i as int + 1));
            flatten_concat(grown, nodes(list@.skip(i as int + 1)));
            assert(point_texts(grown, offset as nat) == point_texts(
                grown.drop_last(),
                offset as nat,
            ).push(point_text(grown.last(), offset as nat + count(grown.drop_last()))));
            children_view(&list@[i as int]);
        }
        let (after, item) = list[i].render_point(next);
        proof {
            texts_push(items@, item);
        }
        items.push(item);
        next = after;
        i = i + 1;
    }
    proof {
        assert(list@.take(i as int) =~= list@);
        reveal_strlit("\n");
        assert("\n"@ =~= seq!['\n']);
    }
    (next, join_texts(&items, "\n"))
}

/// The table of contents as a list element, set in by two levels.
pub open spec fn toc_list(forest: Seq<Node>, numbered: bool) -> Seq<char> {
    spec_indent(list_text(forest, numbered), 2)
}

/// The table of contents as navigation points, numbered from 1 in reading
/// order and set in by two levels.
pub open spec fn toc_points(forest: Seq<Node>) -> Seq<char> {
    spec_indent(points_text(forest, 0), 2)
}

impl Toc {
    /// The nested list of the headings: an ordered list where `numbered` is
    /// set, an unordered one where it is not. Each heading carries its link
    /// and its title; those below it stand in a list inside its item, in the
    /// order in which they were added.
    pub fn render(&self, numbered: bool) -> (r: String)
        ensures
            r@ == toc_list(self@, numbered),
    {
        let list = render_list(&self.elements, numbered);
        indent(list.as_str(), 2)
    }

    /// The navigation map of the headings: one navigation point for each,
    /// those below a heading inside its point. The points carry the numbers
    /// that [`Toc::nav_points`] gives them.
    pub fn render_epub(&self) -> (r: String)
        ensures
            r@ == toc_points(self@),
    {
        // a vector holds the headings, so their number fits the counter
        let flat = self.nav_points();
        assert(count(self@) == flat.len());
        let (_, points) = render_points(&self.elements, 0);
        indent(points.as_str(), 2)
    }
}

} // verus!
