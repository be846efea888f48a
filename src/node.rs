use vstd::prelude::*;

verus! {

/// The kind of element a node renders as.
#[derive(Clone, Copy, Debug, PartialEq, Eq, Structural)]
pub enum Tag {
    /// A block that groups other nodes (`div`).
    Container,
    /// The page's main heading (`h1`).
    Heading,
    /// A section heading (`h2`).
    Subheading,
    /// A paragraph of text (`p`).
    Paragraph,
}

/// The HTML element name of a tag.
pub open spec fn tag_name(t: Tag) -> Seq<char> {
    match t {
        Tag::Container => "div"@,
        Tag::Heading => "h1"@,
        Tag::Subheading => "h2"@,
        Tag::Paragraph => "p"@,
    }
}

impl Tag {
    /// The HTML element name of this tag.
    pub fn name(&self) -> (r: &'static str)
        ensures
            r@ == tag_name(*self),
    {
        match self {
            Tag::Container => "div",
            Tag::Heading => "h1",
            Tag::Subheading => "h2",
            Tag::Paragraph => "p",
        }
    }
}

/// What a node holds: literal text, or an ordered sequence of child nodes.
pub enum Content {
    Text(String),
    Children(Vec<Node>),
}

/// One element of the rendered page: its tag, its style class names and
/// its content. A tree of nodes is built once and never changed.
pub struct Node {
    pub tag: Tag,
    pub classes: Vec<String>,
    pub content: Content,
}

/// The mathematical value of [`Content`].
pub enum ContentModel {
    Text(Seq<char>),
    Children(Seq<NodeModel>),
}

/// The mathematical value of [`Node`]: strings become character sequences.
pub struct NodeModel {
    pub tag: Tag,
    pub classes: Seq<Seq<char>>,
    pub content: ContentModel,
}

/// The character sequences of a list of strings.
pub open spec fn strings_model(s: Seq<String>) -> Seq<Seq<char>> {
    s.map_values(|x: String| x@)
}

impl Node {
    /// The mathematical value of this node and of every node below it.
    pub open spec fn model(self) -> NodeModel
        decreases self, 0nat,
    {
        NodeModel {
            tag: self.tag,
            classes: strings_model(self.classes@),
            content: match self.content {
                Content::Text(t) => ContentModel::Text(t@),
                Content::Children(cs) => ContentModel::Children(models(cs@)),
            },
        }
    }
}

/// The mathematical values of a sequence of nodes, in order.
pub open spec fn models(s: Seq<Node>) -> Seq<NodeModel>
    decreases s, 1nat,
{
    if s.len() == 0 {
        Seq::empty()
    } else {
        seq![s[0].model()] + models(s.subrange(1, s.len() as int))
    }
}

/// The character sequences of a list of string slices.
pub open spec fn names_model(s: Seq<&str>) -> Seq<Seq<char>> {
    s.map_values(|x: &str| x@)
}

/// A node that holds text.
pub open spec fn text_model(tag: Tag, classes: Seq<Seq<char>>, text: Seq<char>) -> NodeModel {
    NodeModel { tag, classes, content: ContentModel::Text(text) }
}

/// A node that holds children.
pub open spec fn element_model(
    tag: Tag,
    classes: Seq<Seq<char>>,
    children: Seq<NodeModel>,
) -> NodeModel {
    NodeModel { tag, classes, content: ContentModel::Children(children) }
}

/// Owned copies of the given class names, in order.
pub fn class_names(names: &[&str]) -> (r: Vec<String>)
    ensures
        strings_model(r@) == names_model(names@),
{
    let mut r: Vec<String> = Vec::new();
    let mut i: usize = 0;
    while i < names.len()
        invariant
            i <= names@.len(),
            r@.len() == i,
            forall|j: int| 0 <= j < i ==> #[trigger] r@[j]@ == names@[j]@,
        decreases names@.len() - i,
    {
        let name: String = names[i].to_owned();
        r.push(name);
        i = i + 1;
    }
    assert(strings_model(r@) =~= names_model(names@));
    r
}

impl Node {
    /// A node of the given tag and class names that holds the given text.
    pub fn text(tag: Tag, classes: &[&str], text: &str) -> (r: Node)
        ensures
            r.model() == text_model(tag, names_model(classes@), text@),
    {
        Node { tag, classes: class_names(classes), content: Content::Text(text.to_owned()) }
    }

    /// A node of the given tag and class names that holds the given children.
    pub fn element(tag: Tag, classes: &[&str], children: Vec<Node>) -> (r: Node)
        ensures
            r.model() == element_model(tag, names_model(classes@), models(children@)),
    {
        Node { tag, classes: class_names(classes), content: Content::Children(children) }
    }
}

/// The children of a node; a text node has none.
pub open spec fn children(m: NodeModel) -> Seq<NodeModel> {
    match m.content {
        ContentModel::Text(_) => Seq::empty(),
        ContentModel::Children(cs) => cs,
    }
}

/// The text of a node; a node with children has none of its own.
pub open spec fn text(m: NodeModel) -> Seq<char> {
    match m.content {
        ContentModel::Text(t) => t,
        ContentModel::Children(_) => Seq::empty(),
    }
}

/// How many nodes of the tree rooted at `m`, `m` included, satisfy `p`.
pub open spec fn count_nodes(m: NodeModel, p: spec_fn(NodeModel) -> bool) -> nat
    decreases m, 0nat,
{
    (if p(m) { 1nat } else { 0nat }) + match m.content {
        ContentModel::Text(_) => 0nat,
        ContentModel::Children(cs) => count_in_trees(cs, p),
    }
}

/// How many nodes of the trees rooted at the members of `s` satisfy `p`.
pub open spec fn count_in_trees(s: Seq<NodeModel>, p: spec_fn(NodeModel) -> bool) -> nat
    decreases s, 1nat,
{
    if s.len() == 0 {
        0
    } else {
        count_nodes(s[0], p) + count_in_trees(s.subrange(1, s.len() as int), p)
    }
}

/// How many members of `s` satisfy `p`.
pub open spec fn count_matching(s: Seq<NodeModel>, p: spec_fn(NodeModel) -> bool) -> nat
    decreases s.len(),
{
    if s.len() == 0 {
        0
    } else {
        count_matching(s.drop_last(), p) + if p(s.last()) { 1nat } else { 0nat }
    }
}

/// How many of the children of `m` satisfy `p`.
pub open spec fn count_children(m: NodeModel, p: spec_fn(NodeModel) -> bool) -> nat {
    count_matching(children(m), p)
}

/// Whether a node has the tag `t`.
pub open spec fn has_tag(t: Tag) -> spec_fn(NodeModel) -> bool {
    |m: NodeModel| m.tag == t
}

/// A text node counts itself alone.
pub proof fn lemma_count_text(tag: Tag, classes: Seq<Seq<char>>, t: Seq<char>, p: spec_fn(NodeModel) -> bool)
    ensures
        count_nodes(text_model(tag, classes, t), p) == if p(text_model(tag, classes, t)) { 1nat } else { 0nat },
{
}

/// Counting over two trees adds up.
pub proof fn lemma_count_two(a: NodeModel, b: NodeModel, p: spec_fn(NodeModel) -> bool)
    ensures
        count_in_trees(seq![a, b], p) == count_nodes(a, p) + count_nodes(b, p),
{
    reveal_with_fuel(count_in_trees, 3);
    assert(seq![a, b].subrange(1, 2) =~= seq![b]);
    assert(seq![b].subrange(1, 1) =~= Seq::<NodeModel>::empty());
}

/// Counting over three trees adds up.
pub proof fn lemma_count_three(a: NodeModel, b: NodeModel, c: NodeModel, p: spec_fn(NodeModel) -> bool)
    ensures
        count_in_trees(seq![a, b, c], p) == count_nodes(a, p) + count_nodes(b, p) + count_nodes(c, p),
{
    lemma_count_two(b, c, p);
    assert(seq![a, b, c].subrange(1, 3) =~= seq![b, c]);
}

/// Counting among two nodes adds up.
pub proof fn lemma_matching_two(a: NodeModel, b: NodeModel, p: spec_fn(NodeModel) -> bool)
    ensures
        count_matching(seq![a, b], p) == (if p(a) { 1nat } else { 0nat }) + (if p(b) { 1nat } else { 0nat }),
{
    reveal_with_fuel(count_matching, 3);
    assert(seq![a, b].drop_last() =~= seq![a]);
    assert(seq![a].drop_last() =~= Seq::<NodeModel>::empty());
}

/// Counting among three nodes adds up.
pub proof fn lemma_matching_three(a: NodeModel, b: NodeModel, c: NodeModel, p: spec_fn(NodeModel) -> bool)
    ensures
        count_matching(seq![a, b, c], p) == (if p(a) { 1nat } else { 0nat }) + (if p(b) { 1nat } else { 0nat })
            + (if p(c) { 1nat } else { 0nat }),
{
    lemma_matching_two(a, b, p);
    assert(seq![a, b, c].drop_last() =~= seq![a, b]);
}

/// Class names joined into one attribute value, a single space between
/// consecutive names.
pub open spec fn joined_names(s: Seq<Seq<char>>) -> Seq<char>
    decreases s.len(),
{
    if s.len() == 0 {
        Seq::empty()
    } else if s.len() == 1 {
        s[0]
    } else {
        joined_names(s.drop_last()) + " "@ + s.last()
    }
}

impl Node {
    /// The value of this node's `class` attribute: its class names in
    /// order, separated by single spaces.
    pub fn class_attr(&self) -> (r: String)
        ensures
            r@ == joined_names(strings_model(self.classes@)),
    {
        let names = &self.classes;
        let mut r: String = String::new();
        let mut i: usize = 0;
        while i < names.len()
            invariant
                i <= names@.len(),
                r@ == joined_names(strings_model(names@.subrange(0, i as int))),
            decreases names@.len() - i,
        {
            if i > 0 {
                r.append(" ");
            }
            r.append(names[i].as_str());
            proof {
                let before = strings_model(names@.subrange(0, i as int));
                let after = strings_model(names@.subrange(0, i + 1));
                assert(after.drop_last() =~= before);
                assert(after.last() == names@[i as int]@);
                if i == 0 {
                    assert(before =~= Seq::<Seq<char>>::empty());
                }
            }
            i = i + 1;
        }
        assert(names@.subrange(0, names@.len() as int) =~= names@);
        r
    }
}

} // verus!
