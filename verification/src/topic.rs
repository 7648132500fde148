//! Topics, and paths of topics from a root to a leaf.

use vstd::prelude::*;

verus! {

/// One step of a path.
pub trait Topic {
    spec fn text(&self) -> Seq<char>;

    fn value(&self) -> (r: &str)
        ensures
            r@ == self.text(),
    ;
}

impl Topic for &str {
    open spec fn text(&self) -> Seq<char> {
        self@
    }

    fn value(&self) -> (r: &str) {
        self
    }
}

impl Topic for String {
    open spec fn text(&self) -> Seq<char> {
        self@
    }

    fn value(&self) -> (r: &str) {
        self.as_str()
    }
}

/// A topic of any kind, boxed.
pub struct Step(pub Box<dyn Topic>);

impl Step {
    /// The step with this text.
    pub fn of(text: String) -> (r: Step)
        ensures
            r.text() == text@,
    {
        Step(Box::new(text))
    }
}

impl Topic for Step {
    open spec fn text(&self) -> Seq<char> {
        self.0.text()
    }

    fn value(&self) -> (r: &str) {
        self.0.value()
    }
}

/// A path of topics, the leaf first and the root last.
pub struct TopicTree(pub Vec<Step>);

/// The texts of the topics, in their order.
pub open spec fn texts(topics: Seq<Step>) -> Seq<Seq<char>> {
    Seq::new(topics.len(), |i: int| topics[i].text())
}

/// The parts in their order, with `sep` between each and the next.
pub open spec fn joined(parts: Seq<Seq<char>>, sep: Seq<char>) -> Seq<char>
    decreases parts.len(),
{
    if parts.len() == 0 {
        seq![]
    } else if parts.len() == 1 {
        parts[0]
    } else {
        joined(parts.drop_last(), sep) + sep + parts.last()
    }
}

/// The path through these topics, the root given first.
pub fn topic(items: Vec<Step>) -> (r: TopicTree)
    ensures
        r.0@ == items@.reverse(),
{
    let ghost all = items@;
    let mut left: Vec<Step> = items;
    let mut tree: Vec<Step> = Vec::new();
    while left.len() > 0
        invariant
            left@ == all.take(left@.len() as int),
            left@.len() + tree@.len() == all.len(),
            tree@ == all.reverse().take(tree@.len() as int),
        decreases left.len(),
    {
        if let Some(item) = left.pop() {
            tree.push(item);
        }
        assert(tree@ =~= all.reverse().take(tree@.len() as int));
    }
    assert(tree@ =~= all.reverse());
    TopicTree(tree)
}

impl Default for TopicTree {
    /// The empty path.
    fn default() -> (r: TopicTree)
        ensures
            r.0@ == Seq::<Step>::empty(),
    {
        TopicTree(Vec::new())
    }
}

impl TopicTree {
    /// The path in words: its topics from the root down, joined by " / ".
    pub open spec fn path(self) -> Seq<char> {
        joined(texts(self.0@).reverse(), " / "@)
    }

    /// Writes the path in words.
    pub fn fmt(&self) -> (r: String)
        ensures
            r@ == self.path(),
    {
        let ghost parts = texts(self.0@).reverse();
        let mut out: String = String::new();
        let mut done: usize = 0;
        let len: usize = self.0.len();
        while done < len
            invariant
                len == self.0@.len(),
                done <= len,
                parts == texts(self.0@).reverse(),
                out@ == joined(parts.take(done as int), " / "@),
            decreases len - done,
        {
            let value: &str = self.0[len - 1 - done].value();
            assert(value@ == parts[done as int]);
            assert(parts.take(done + 1).drop_last() =~= parts.take(done as int));
            if done > 0 {
                out.append(" / ");
            }
            out.append(value);
            assert(out@ =~= joined(parts.take(done + 1), " / "@));
            done += 1;
        }
        assert(parts.take(len as int) =~= parts);
        out
    }
}

/// A path reads in the order in which its topics were given.
pub proof fn path_reads_root_first(items: Seq<Step>, tree: TopicTree)
    requires
        tree.0@ == items.reverse(),
    ensures
        tree.path() == joined(texts(items), " / "@),
{
    assert(texts(items.reverse()).reverse() =~= texts(items));
}

/// Nothing joins to nothing, one part to itself, and two rows of parts to both
/// joined, with the separator between them.
pub proof fn joining_puts_the_separator_between(
    a: Seq<Seq<char>>,
    b: Seq<Seq<char>>,
    part: Seq<char>,
    sep: Seq<char>,
)
    requires
        a.len() > 0,
        b.len() > 0,
    ensures
        joined(seq![], sep) == Seq::<char>::empty(),
        joined(seq![part], sep) == part,
        joined(a + b, sep) == joined(a, sep) + sep + joined(b, sep),
    decreases b.len(),
{
    assert((a + b).drop_last() =~= a + b.drop_last());
    assert((a + b).last() == b.last());
    if b.len() == 1 {
        assert(a + b.drop_last() =~= a);
        assert(joined(b, sep) == b.last());
    } else {
        joining_puts_the_separator_between(a, b.drop_last(), part, sep);
        assert(joined(a + b, sep) =~= joined(a, sep) + sep + joined(b, sep));
    }
}

/// Each topic reads as it was given, and a step as the topic in it.
pub proof fn a_topic_reads_as_it_was_given(a: &str, b: String, step: Step, steps: Seq<Step>, i: int)
    requires
        0 <= i < steps.len(),
    ensures
        a.text() == a@,
        b.text() == b@,
        step.text() == step.0.text(),
        texts(steps).len() == steps.len(),
        texts(steps)[i] == steps[i].text(),
{
}

/// A path of one topic reads as the topic; a longer one as the path without its
/// leaf, the separator, and the leaf.
pub proof fn a_path_grows_at_its_leaf(tree: TopicTree, parent: TopicTree, leaf: Step)
    requires
        tree.0@ == seq![leaf] + parent.0@,
    ensures
        parent.0@.len() == 0 ==> tree.path() == leaf.text(),
        parent.0@.len() > 0 ==> tree.path() == parent.path() + " / "@ + leaf.text(),
{
    let parts = texts(tree.0@).reverse();
    assert(parts =~= texts(parent.0@).reverse().push(leaf.text()));
    assert(parts.drop_last() =~= texts(parent.0@).reverse());
}

/// A path that is made of topics reads as these, in the order in which they were
/// given.
pub proof fn a_path_reads_as_it_was_made(items: Vec<Step>, tree: TopicTree, words: String)
    requires
        call_ensures(topic, (items,), tree),
        call_ensures(TopicTree::fmt, (&tree,), words),
    ensures
        words@ == joined(texts(items@), " / "@),
        items@.len() == 0 ==> words@ == Seq::<char>::empty(),
        items@.len() == 1 ==> words@ == items@[0].text(),
        items@.len() == 2 ==> words@ == items@[0].text() + " / "@ + items@[1].text(),
{
    path_reads_root_first(items@, tree);
    let parts = texts(items@);
    if items@.len() == 2 {
        let root = seq![parts[0]];
        let leaf = seq![parts[1]];
        assert(parts =~= root + leaf);
        joining_puts_the_separator_between(root, leaf, parts[1], " / "@);
    }
}

} // verus!
