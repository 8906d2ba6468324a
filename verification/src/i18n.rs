//! Translations: merging a user's overlay into the bundled texts, flattening
//! the result into dotted keys, and looking texts up.

use vstd::prelude::*;
use vstd::string::StrSliceExecFns;
use vstd::string::StringExecFns;
use crate::text::push_char;
use crate::text::str_eq;
use crate::text::str_le;
use crate::text::text_le;

verus! {

/// A value that is not an object.
#[derive(Debug, PartialEq, Eq)]
pub enum Leaf {
    /// A text.
    Text(String),
    /// Any other value, held as its JSON text.
    Other(String),
}

/// A document tree, as far as translations are concerned.
#[derive(Debug, PartialEq, Eq)]
pub enum Node {
    /// A value that is not an object.
    Value(Leaf),
    /// An object: its members in order.
    Object(Vec<(String, Node)>),
}

/// The content of a leaf.
pub enum LeafView {
    Text(Seq<char>),
    Other(Seq<char>),
}

/// The content of a document tree.
pub enum Tree {
    Value(LeafView),
    Object(Seq<(Seq<char>, Tree)>),
}

impl View for Leaf {
    type V = LeafView;

    open spec fn view(&self) -> LeafView {
        match self {
            Leaf::Text(s) => LeafView::Text(s@),
            Leaf::Other(s) => LeafView::Other(s@),
        }
    }
}

impl View for Node {
    type V = Tree;

    open spec fn view(&self) -> Tree
        decreases self,
    {
        match self {
            Node::Value(leaf) => Tree::Value(leaf@),
            Node::Object(members) => Tree::Object(
                Seq::new(
                    members@.len(),
                    |i: int|
                        if 0 <= i < members@.len() {
                            (members@[i].0@, members@[i].1@)
                        } else {
                            (Seq::empty(), Tree::Object(Seq::empty()))
                        },
                ),
            ),
        }
    }
}

/// The content of a list of keyed values.
pub open spec fn pairs<V: View>(entries: Seq<(String, V)>) -> Seq<(Seq<char>, V::V)> {
    Seq::new(entries.len(), |i: int| (entries[i].0@, entries[i].1@))
}

/// The view of an object is the content of its members.
pub proof fn lemma_object_view(members: Vec<(String, Node)>)
    ensures
        Node::Object(members)@ == Tree::Object(pairs(members@)),
{
    let tree = Node::Object(members)@;
    let direct = Seq::new(
        members@.len(),
        |i: int|
            if 0 <= i < members@.len() {
                (members@[i].0@, members@[i].1@)
            } else {
                (Seq::empty(), Tree::Object(Seq::empty()))
            },
    );
    reveal_with_fuel(<Node as View>::view, 2);
    assert(tree is Object);
    assert(tree->Object_0.len() == members@.len());
    assert(tree->Object_0 =~= direct);
    assert(direct =~= pairs(members@));
}

/// Index of the first entry with the key `key`; the length if there is none.
pub open spec fn position<T>(entries: Seq<(Seq<char>, T)>, key: Seq<char>) -> int
    decreases entries.len(),
{
    if entries.len() == 0 || entries[0].0 == key {
        0
    } else {
        1 + position(entries.drop_first(), key)
    }
}

/// Index of the first entry whose key sorts after `key`; the length if there
/// is none.
pub open spec fn sorted_slot<T>(entries: Seq<(Seq<char>, T)>, key: Seq<char>) -> int
    decreases entries.len(),
{
    if entries.len() == 0 || !text_le(entries[0].0, key) {
        0
    } else {
        1 + sorted_slot(entries.drop_first(), key)
    }
}

/// The entries with `value` stored under `key`: in place of the first entry
/// that has the key, or, if there is none, before the first entry whose key
/// sorts after it.
pub open spec fn put<T>(entries: Seq<(Seq<char>, T)>, key: Seq<char>, value: T) -> Seq<
    (Seq<char>, T),
> {
    let at = position(entries, key);
    if at < entries.len() {
        entries.update(at, (key, value))
    } else {
        entries.insert(sorted_slot(entries, key), (key, value))
    }
}

/// An index that has no entry with the key before it, and one with the key
/// at it unless it is the end, is the position of the key.
proof fn lemma_position_found<T>(entries: Seq<(Seq<char>, T)>, key: Seq<char>, at: int)
    requires
        0 <= at <= entries.len(),
        forall|i: int| 0 <= i < at ==> (#[trigger] entries[i]).0 != key,
        at < entries.len() ==> entries[at].0 == key,
    ensures
        position(entries, key) == at,
    decreases entries.len(),
{
    if entries.len() == 0 || entries[0].0 == key {
        if at > 0 {
            assert(entries[0].0 != key);
        }
    } else {
        let rest = entries.drop_first();
        assert forall|i: int| 0 <= i < at - 1 implies (#[trigger] rest[i]).0 != key by {
            assert(rest[i] == entries[i + 1]);
        }
        lemma_position_found(rest, key, at - 1);
    }
}

/// An index that has only keys up to `key` before it, and a later key at it
/// unless it is the end, is the sorted slot of the key.
proof fn lemma_slot_found<T>(entries: Seq<(Seq<char>, T)>, key: Seq<char>, at: int)
    requires
        0 <= at <= entries.len(),
        forall|i: int| 0 <= i < at ==> text_le((#[trigger] entries[i]).0, key),
        at < entries.len() ==> !text_le(entries[at].0, key),
    ensures
        sorted_slot(entries, key) == at,
    decreases entries.len(),
{
    if entries.len() == 0 || !text_le(entries[0].0, key) {
        if at > 0 {
            assert(text_le(entries[0].0, key));
        }
    } else {
        let rest = entries.drop_first();
        assert forall|i: int| 0 <= i < at - 1 implies text_le((#[trigger] rest[i]).0, key) by {
            assert(rest[i] == entries[i + 1]);
        }
        lemma_slot_found(rest, key, at - 1);
    }
}

/// Index of the first entry with the key `key`; the length if there is none.
pub fn find<V: View>(entries: &Vec<(String, V)>, key: &str) -> (at: usize)
    ensures
        at == position(pairs(entries@), key@),
        at <= entries@.len(),
{
    let mut i: usize = 0;
    while i < entries.len()
        invariant
            i <= entries@.len(),
            forall|k: int| 0 <= k < i ==> (#[trigger] pairs(entries@)[k]).0 != key@,
        decreases entries@.len() - i,
    {
        if str_eq(entries[i].0.as_str(), key) {
            proof {
                assert(pairs(entries@)[i as int].0 == key@);
                lemma_position_found(pairs(entries@), key@, i as int);
            }
            return i;
        }
        i += 1;
    }
    proof {
        lemma_position_found(pairs(entries@), key@, i as int);
    }
    i
}

/// Stores `value` under `key`: in place of the first entry that has the key,
/// or, if there is none, before the first entry whose key sorts after it.
pub fn store<V: View>(entries: &mut Vec<(String, V)>, key: String, value: V)
    ensures
        pairs(final(entries)@) == put(pairs(old(entries)@), key@, value@),
{
    let at: usize = find(entries, key.as_str());
    if at < entries.len() {
        let ghost before = entries@;
        entries.remove(at);
        entries.insert(at, (key, value));
        assert(pairs(entries@) =~= pairs(before).update(at as int, (key@, value@)));
    } else {
        let mut slot: usize = 0;
        while slot < entries.len() && str_le(entries[slot].0.as_str(), key.as_str())
            invariant
                slot <= entries@.len(),
                forall|k: int|
                    0 <= k < slot ==> text_le((#[trigger] pairs(entries@)[k]).0, key@),
            decreases entries@.len() - slot,
        {
            slot += 1;
        }
        proof {
            lemma_slot_found(pairs(entries@), key@, slot as int);
        }
        let ghost before = entries@;
        entries.insert(slot, (key, value));
        assert(pairs(entries@) =~= pairs(before).insert(slot as int, (key@, value@)));
    }
}

/// A copy of a leaf.
pub fn duplicate_leaf(leaf: &Leaf) -> (r: Leaf)
    ensures
        r@ == leaf@,
{
    match leaf {
        Leaf::Text(s) => Leaf::Text(s.clone()),
        Leaf::Other(s) => Leaf::Other(s.clone()),
    }
}

/// A copy of a tree.
pub fn duplicate(node: &Node) -> (r: Node)
    ensures
        r@ == node@,
    decreases node,
{
    match node {
        Node::Value(leaf) => Node::Value(duplicate_leaf(leaf)),
        Node::Object(members) => {
            let mut out: Vec<(String, Node)> = Vec::new();
            let mut i: usize = 0;
            while i < members.len()
                invariant
                    i <= members@.len(),
                    pairs(out@) == pairs(members@).take(i as int),
                    node == Node::Object(*members),
                decreases members@.len() - i,
            {
                let ghost before = out@;
                proof {
                    vstd::std_specs::vec::axiom_vec_index_decreases(*members, i as int);
                    assert(decreases_to!(*node => node->Object_0));
                }
                let child = duplicate(&members[i].1);
                out.push((members[i].0.clone(), child));
                assert(pairs(out@) =~= pairs(before).push(pairs(members@)[i as int]));
                assert(pairs(members@).take(i + 1) =~= pairs(members@).take(i as int).push(
                    pairs(members@)[i as int],
                ));
                i += 1;
            }
            proof {
                assert(pairs(members@).take(i as int) =~= pairs(members@));
                lemma_object_view(out);
                lemma_object_view(*members);
            }
            Node::Object(out)
        },
    }
}

/// The overlay merged into the base. Two objects merge member by member:
/// each member of the overlay is merged into the member of the base with the
/// same key, or added if the base has none. In every other case the overlay
/// replaces the base.
pub open spec fn merged(base: Tree, overlay: Tree) -> Tree
    decreases overlay,
{
    match (base, overlay) {
        (Tree::Object(b), Tree::Object(o)) => Tree::Object(merged_members(b, o)),
        (_, o) => o,
    }
}

/// The members of an overlay merged into the members of a base, in the
/// overlay's order.
pub open spec fn merged_members(
    base: Seq<(Seq<char>, Tree)>,
    overlay: Seq<(Seq<char>, Tree)>,
) -> Seq<(Seq<char>, Tree)>
    decreases overlay,
{
    if overlay.len() == 0 {
        base
    } else {
        let key = overlay[0].0;
        let at = position(base, key);
        let value = if at < base.len() {
            merged(base[at].1, overlay[0].1)
        } else {
            overlay[0].1
        };
        merged_members(put(base, key, value), overlay.drop_first())
    }
}

/// Merges an overlay into a base.
pub fn deep_merge(base: Node, overlay: Node) -> (r: Node)
    ensures
        r@ == merged(base@, overlay@),
    decreases overlay,
{
    match overlay {
        Node::Value(leaf) => Node::Value(leaf),
        Node::Object(o) => match base {
            Node::Value(_) => Node::Object(o),
            Node::Object(b) => {
                let ghost base_members = pairs(b@);
                let ghost overlay_members = pairs(o@);
                let ghost overlay_vec = o;
                proof {
                    lemma_object_view(b);
                    lemma_object_view(o);
                }
                let mut acc: Vec<(String, Node)> = b;
                assert(overlay_members.skip(0) =~= overlay_members);
                for member in it: o.into_iter()
                    invariant
                        it.seq() == overlay_vec@,
                        overlay_members == pairs(overlay_vec@),
                        overlay == Node::Object(overlay_vec),
                        merged_members(base_members, overlay_members) == merged_members(
                            pairs(acc@),
                            overlay_members.skip(it.index() as int),
                        ),
                {
                    let ghost rest = overlay_members.skip(it.index() as int);
                    proof {
                        assert(rest[0] == overlay_members[it.index() as int]);
                        assert(rest.drop_first() =~= overlay_members.skip(it.index() + 1));
                        assert(member == overlay_vec@[it.index() as int]);
                        vstd::std_specs::vec::axiom_vec_index_decreases(
                            overlay_vec,
                            it.index() as int,
                        );
                        assert(decreases_to!(overlay => overlay->Object_0));
                    }
                    let (key, value) = member;
                    let at: usize = find(&acc, key.as_str());
                    if at < acc.len() {
                        let ghost before = acc@;
                        let (_, existing) = acc.remove(at);
                        let joined = deep_merge(existing, value);
                        acc.insert(at, (key, joined));
                        proof {
                            assert(pairs(acc@) =~= pairs(before).update(
                                at as int,
                                (key@, joined@),
                            ));
                        }
                    } else {
                        store(&mut acc, key, value);
                    }
                }
                proof {
                    assert(overlay_members.skip(overlay_members.len() as int).len() == 0);
                    lemma_object_view(acc);
                }
                Node::Object(acc)
            },
        },
    }
}

/// The key of a member below a prefix: the prefix, a dot and the member's
/// key; below the empty prefix the member's key alone.
pub open spec fn dotted(prefix: Seq<char>, key: Seq<char>) -> Seq<char> {
    if prefix.len() == 0 {
        key
    } else {
        prefix.push('.') + key
    }
}

/// The flat entries `acc` with the leaves of `val` added under dotted keys
/// that begin with `prefix`. A leaf at the top is added under the prefix
/// itself, unless the prefix is empty.
pub open spec fn flattened_into(
    val: Tree,
    prefix: Seq<char>,
    acc: Seq<(Seq<char>, LeafView)>,
) -> Seq<(Seq<char>, LeafView)>
    decreases val,
{
    match val {
        Tree::Object(members) => flattened_members(members, prefix, acc),
        Tree::Value(leaf) => if prefix.len() > 0 {
            put(acc, prefix, leaf)
        } else {
            acc
        },
    }
}

/// The flat entries `acc` with the leaves below the given members added, the
/// members taken in order.
pub open spec fn flattened_members(
    members: Seq<(Seq<char>, Tree)>,
    prefix: Seq<char>,
    acc: Seq<(Seq<char>, LeafView)>,
) -> Seq<(Seq<char>, LeafView)>
    decreases members,
{
    if members.len() == 0 {
        acc
    } else {
        let key = dotted(prefix, members[0].0);
        let next = match members[0].1 {
            Tree::Object(_) => flattened_into(members[0].1, key, acc),
            Tree::Value(leaf) => put(acc, key, leaf),
        };
        flattened_members(members.drop_first(), prefix, next)
    }
}

/// The leaves of a tree under their dotted keys.
pub open spec fn flattened(val: Tree, prefix: Seq<char>) -> Seq<(Seq<char>, LeafView)> {
    flattened_into(val, prefix, Seq::empty())
}

fn dotted_key(prefix: &str, key: String) -> (r: String)
    ensures
        r@ == dotted(prefix@, key@),
{
    if prefix.is_empty() {
        key
    } else {
        let mut out = String::from_str(prefix);
        push_char(&mut out, '.');
        out.append(key.as_str());
        out
    }
}

fn flatten_into(val: Node, prefix: &str, acc: &mut Vec<(String, Leaf)>)
    ensures
        pairs(final(acc)@) == flattened_into(val@, prefix@, pairs(old(acc)@)),
    decreases val,
{
    match val {
        Node::Value(leaf) => {
            if !prefix.is_empty() {
                store(acc, String::from_str(prefix), leaf);
            }
        },
        Node::Object(members) => {
            let ghost all = pairs(members@);
            let ghost members_vec = members;
            let ghost start = pairs(acc@);
            proof {
                lemma_object_view(members);
                assert(all.skip(0) =~= all);
            }
            for member in it: members.into_iter()
                invariant
                    it.seq() == members_vec@,
                    all == pairs(members_vec@),
                    val == Node::Object(members_vec),
                    flattened_members(all, prefix@, start) == flattened_members(
                        all.skip(it.index() as int),
                        prefix@,
                        pairs(acc@),
                    ),
            {
                let ghost rest = all.skip(it.index() as int);
                proof {
                    assert(rest[0] == all[it.index() as int]);
                    assert(rest.drop_first() =~= all.skip(it.index() + 1));
                    assert(member == members_vec@[it.index() as int]);
                    vstd::std_specs::vec::axiom_vec_index_decreases(
                        members_vec,
                        it.index() as int,
                    );
                    assert(decreases_to!(val => val->Object_0));
                }
                let (key, child) = member;
                let full = dotted_key(prefix, key);
                match child {
                    Node::Object(inner) => {
                        flatten_into(Node::Object(inner), full.as_str(), acc);
                    },
                    Node::Value(leaf) => {
                        store(acc, full, leaf);
                    },
                }
            }
            proof {
                assert(all.skip(all.len() as int).len() == 0);
            }
        },
    }
}

/// Flattens a tree into its leaves under dotted keys that begin with
/// `prefix`.
pub fn flatten_json(val: Node, prefix: &str) -> (r: Vec<(String, Leaf)>)
    ensures
        pairs(r@) == flattened(val@, prefix@),
{
    let mut acc: Vec<(String, Leaf)> = Vec::new();
    assert(pairs(acc@) =~= Seq::empty());
    flatten_into(val, prefix, &mut acc);
    acc
}

/// Index of the first dot in a key; the length if it has none.
pub open spec fn first_dot(key: Seq<char>) -> int
    decreases key.len(),
{
    if key.len() == 0 || key[0] == '.' {
        0
    } else {
        1 + first_dot(key.drop_first())
    }
}

/// The first dot lies within the key or at its end.
pub proof fn lemma_first_dot(key: Seq<char>)
    ensures
        0 <= first_dot(key) <= key.len(),
        forall|i: int| 0 <= i < first_dot(key) ==> key[i] != '.',
        first_dot(key) < key.len() ==> key[first_dot(key)] == '.',
    decreases key.len(),
{
    if key.len() == 0 || key[0] == '.' {
    } else {
        let rest = key.drop_first();
        lemma_first_dot(rest);
        assert forall|i: int| 0 <= i < first_dot(key) implies key[i] != '.' by {
            if i > 0 {
                assert(key[i] == rest[i - 1]);
            }
        }
    }
}

/// The members `root` with `val` stored at the place that the dotted key
/// names. A key without a dot names a member of `root`. Otherwise its part
/// before the first dot names a member, which is created as an empty object
/// if it is missing, and the rest of the key names the place inside that
/// member; if the member is no object, nothing is stored.
pub open spec fn nested_put(root: Seq<(Seq<char>, Tree)>, key: Seq<char>, val: Tree) -> Seq<
    (Seq<char>, Tree),
>
    decreases key.len(),
{
    let dot = first_dot(key);
    if dot >= key.len() {
        put(root, key, val)
    } else {
        proof {
            lemma_first_dot(key);
        }
        let head = key.take(dot);
        let tail = key.skip(dot + 1);
        let at = position(root, head);
        if at < root.len() {
            match root[at].1 {
                Tree::Object(children) => root.update(
                    at,
                    (root[at].0, Tree::Object(nested_put(children, tail, val))),
                ),
                Tree::Value(_) => root,
            }
        } else {
            put(root, head, Tree::Object(nested_put(Seq::empty(), tail, val)))
        }
    }
}

fn find_dot(key: &str) -> (r: usize)
    ensures
        r == first_dot(key@),
        r <= key@.len(),
{
    let len: usize = key.unicode_len();
    let mut at: usize = 0;
    let mut found: bool = false;
    for c in it: key.chars()
        invariant
            it.seq() == key@,
            len == key@.len(),
            at <= it.index() <= len,
            found ==> at < it.index() && key@[at as int] == '.',
            !found ==> at == it.index(),
            forall|i: int| 0 <= i < at ==> key@[i] != '.',
    {
        if !found {
            if c == '.' {
                found = true;
            } else {
                at += 1;
            }
        }
    }
    proof {
        lemma_first_dot_found(key@, at as int);
    }
    at
}

/// An index with no dot before it, and a dot at it unless it is the end, is
/// the first dot.
proof fn lemma_first_dot_found(key: Seq<char>, at: int)
    requires
        0 <= at <= key.len(),
        forall|i: int| 0 <= i < at ==> key[i] != '.',
        at < key.len() ==> key[at] == '.',
    ensures
        first_dot(key) == at,
    decreases key.len(),
{
    if key.len() == 0 || key[0] == '.' {
    } else {
        let rest = key.drop_first();
        assert forall|i: int| 0 <= i < at - 1 implies rest[i] != '.' by {
            assert(rest[i] == key[i + 1]);
        }
        assert(at > 0);
        lemma_first_dot_found(rest, at - 1);
    }
}

/// Stores `val` in `root` at the place that the dotted key names.
pub fn set_nested(root: &mut Vec<(String, Node)>, key: &str, val: Node)
    ensures
        pairs(final(root)@) == nested_put(pairs(old(root)@), key@, val@),
    decreases key@.len(),
{
    let len: usize = key.unicode_len();
    let dot: usize = find_dot(key);
    if dot >= len {
        store(root, String::from_str(key), val);
    } else {
        let head = key.substring_char(0, dot);
        let tail = key.substring_char(dot + 1, len);
        proof {
            assert(key@.subrange(0, dot as int) =~= key@.take(dot as int));
            assert(key@.subrange(dot + 1, len as int) =~= key@.skip(dot + 1));
        }
        let at: usize = find(root, head);
        if at < root.len() {
            let ghost before = root@;
            let (name, node) = root.remove(at);
            match node {
                Node::Object(children) => {
                    let mut children = children;
                    proof {
                        lemma_object_view(children);
                    }
                    set_nested(&mut children, tail, val);
                    proof {
                        lemma_object_view(children);
                    }
                    root.insert(at, (name, Node::Object(children)));
                    assert(pairs(root@) =~= pairs(before).update(
                        at as int,
                        (pairs(before)[at as int].0, Tree::Object(pairs(children@))),
                    ));
                },
                Node::Value(leaf) => {
                    root.insert(at, (name, Node::Value(leaf)));
                    assert(pairs(root@) =~= pairs(before));
                },
            }
        } else {
            let mut children: Vec<(String, Node)> = Vec::new();
            assert(pairs(children@) =~= Seq::empty());
            set_nested(&mut children, tail, val);
            proof {
                lemma_object_view(children);
            }
            store(root, String::from_str(head), Node::Object(children));
        }
    }
}

/// The tree that stands for a document that could not be had: the JSON
/// value `null`.
pub open spec fn null_tree() -> Tree {
    Tree::Value(LeafView::Other("null"@))
}

/// The tree of an optional document.
pub open spec fn tree_or_null(doc: Option<Node>) -> Tree {
    match doc {
        Some(node) => node@,
        None => null_tree(),
    }
}

/// The flat translations that a bundled document and a user's overlay give:
/// the overlay merged into the bundle, flattened. A missing document counts
/// as `null`.
pub open spec fn loaded(bundled: Option<Node>, overlay: Option<Node>) -> Seq<
    (Seq<char>, LeafView),
> {
    flattened(merged(tree_or_null(bundled), tree_or_null(overlay)), Seq::empty())
}

/// The members of the nested document that flat entries stand for: every
/// entry stored at the place its dotted key names, in order.
pub open spec fn rebuilt(
    entries: Seq<(Seq<char>, LeafView)>,
    root: Seq<(Seq<char>, Tree)>,
) -> Seq<(Seq<char>, Tree)>
    decreases entries.len(),
{
    if entries.len() == 0 {
        root
    } else {
        rebuilt(entries.drop_first(), nested_put(root, entries[0].0, Tree::Value(entries[0].1)))
    }
}

/// The text shown for a key: the text stored under it, or the JSON text of
/// what is stored if that is no text, or the key itself if nothing is stored.
pub open spec fn translation(entries: Seq<(Seq<char>, LeafView)>, key: Seq<char>) -> Seq<char> {
    let at = position(entries, key);
    if 0 <= at < entries.len() {
        match entries[at].1 {
            LeafView::Text(s) => s,
            LeafView::Other(s) => s,
        }
    } else {
        key
    }
}

fn node_or_null(doc: Option<Node>) -> (r: Node)
    ensures
        r@ == tree_or_null(doc),
{
    match doc {
        Some(node) => node,
        None => Node::Value(Leaf::Other(String::from_str("null"))),
    }
}

/// The translations of one language.
pub struct I18n {
    translations: Vec<(String, Leaf)>,
    current_lang: String,
}

impl I18n {
    /// The flat translations: dotted keys with their leaves.
    pub closed spec fn entries(&self) -> Seq<(Seq<char>, LeafView)> {
        pairs(self.translations@)
    }

    /// The tag of the language that is loaded.
    pub closed spec fn language(&self) -> Seq<char> {
        self.current_lang@
    }

    /// The translations of `lang`, from its bundled document and the user's
    /// overlay, each of which may be missing.
    pub fn new(lang: &str, bundled: Option<Node>, overlay: Option<Node>) -> (r: Self)
        ensures
            r.language() == lang@,
            r.entries() == loaded(bundled, overlay),
    {
        let merged = deep_merge(node_or_null(bundled), node_or_null(overlay));
        proof {
            reveal_strlit("");
            assert(""@ =~= Seq::<char>::empty());
        }
        I18n { translations: flatten_json(merged, ""), current_lang: String::from_str(lang) }
    }

    /// Replaces the translations by those of `lang`.
    pub fn load_language(&mut self, lang: &str, bundled: Option<Node>, overlay: Option<Node>)
        ensures
            final(self).language() == lang@,
            final(self).entries() == loaded(bundled, overlay),
    {
        let merged = deep_merge(node_or_null(bundled), node_or_null(overlay));
        proof {
            reveal_strlit("");
            assert(""@ =~= Seq::<char>::empty());
        }
        self.current_lang = String::from_str(lang);
        self.translations = flatten_json(merged, "");
    }

    /// The tag of the language that is loaded.
    pub fn current_lang(&self) -> (r: &str)
        ensures
            r@ == self.language(),
    {
        self.current_lang.as_str()
    }

    /// The nested document that the flat translations stand for.
    pub fn get_all(&self) -> (r: Node)
        ensures
            r@ == Tree::Object(rebuilt(self.entries(), Seq::empty())),
    {
        let mut root: Vec<(String, Node)> = Vec::new();
        let ghost all = pairs(self.translations@);
        assert(pairs(root@) =~= Seq::empty());
        assert(all.skip(0) =~= all);
        let mut i: usize = 0;
        while i < self.translations.len()
            invariant
                i <= self.translations@.len(),
                all == pairs(self.translations@),
                rebuilt(all, Seq::empty()) == rebuilt(all.skip(i as int), pairs(root@)),
            decreases self.translations@.len() - i,
        {
            proof {
                let rest = all.skip(i as int);
                assert(rest[0] == all[i as int]);
                assert(rest.drop_first() =~= all.skip(i + 1));
            }
            let leaf = duplicate_leaf(&self.translations[i].1);
            set_nested(&mut root, self.translations[i].0.as_str(), Node::Value(leaf));
            i += 1;
        }
        proof {
            assert(all.skip(all.len() as int).len() == 0);
            lemma_object_view(root);
        }
        Node::Object(root)
    }

    /// The text shown for `key`.
    pub fn t(&self, key: &str) -> (r: String)
        ensures
            r@ == translation(self.entries(), key@),
    {
        let at: usize = find(&self.translations, key);
        if at < self.translations.len() {
            match &self.translations[at].1 {
                Leaf::Text(s) => s.clone(),
                Leaf::Other(s) => s.clone(),
            }
        } else {
            String::from_str(key)
        }
    }
}

} // verus!
