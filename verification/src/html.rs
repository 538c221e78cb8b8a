//! Splitting an article's HTML into a skeleton and translatable text blocks.
//!
//! The HTML is parsed (by `scraper`) into a pre-order list of open and close
//! tokens. A node is an open token, the nodes up to its close token being its
//! descendants. Text and inline markup accumulate into a block; block-level
//! elements, images and elements holding images stay in the skeleton, where
//! each block is replaced by `[[TEXT_n]]`.
use vstd::prelude::*;
use ego_tree::iter::Edge;
use scraper::Node;
use crate::num::{dec_spec, digit_val, digits_value, lemma_radix_digits_value, u64_to_dec};
use crate::text::{
    chars_eq, extend_chars, extend_str, from_chars, is_blank, lemma_occurs_append, lemma_trim_idempotent,
    lemma_trim_end, lemma_trim_end_tail, lemma_trim_keeps, lemma_trim_start, lemma_trim_start_head, matches_at,
    occurs, trim_end_spec, trim_start_spec, replace_char, replace_char_spec, to_chars, trim_chars, trim_spec,
};

verus! {

/// What a node is.
pub enum NodeKind {
    Element { name: String, attrs: Vec<(String, String)> },
    Text(String),
    /// The document or fragment root.
    Container,
    /// A comment, doctype or processing instruction.
    Other,
}

/// A step of a pre-order walk: entering a node, or leaving the last one entered.
pub enum HtmlToken {
    Open(NodeKind),
    Close,
}

/// The tokens a fragment parses to.
pub uninterp spec fn html_fragment_tokens(html: Seq<char>) -> Seq<HtmlToken>;

/// Parses an HTML fragment with `scraper::Html::parse_fragment` and walks the
/// tree with `ego_tree`'s `traverse`: the named token list.
#[verifier::external_body]
pub(crate) fn parse_fragment_tokens(html: &str) -> (r: Vec<HtmlToken>)
    ensures
        r@ == html_fragment_tokens(html@),
{
    let frag = scraper::Html::parse_fragment(html);
    frag.tree.root().traverse().map(|edge| match edge {
        Edge::Open(n) => HtmlToken::Open(match n.value() {
            Node::Element(e) => NodeKind::Element {
                name: e.name().to_string(),
                attrs: e.attrs().map(|(k, v)| (k.to_string(), v.to_string())).collect(),
            },
            Node::Text(t) => NodeKind::Text(t.text.to_string()),
            Node::Document | Node::Fragment => NodeKind::Container,
            _ => NodeKind::Other,
        }),
        Edge::Close(_) => HtmlToken::Close,
    }).collect()
}

// ---------------------------------------------------------------------------
// Tree structure
// ---------------------------------------------------------------------------

/// A node starts at `i`.
pub open spec fn is_open(t: Seq<HtmlToken>, i: int) -> bool {
    0 <= i < t.len() && t[i] is Open
}

/// The kind of the node at `i`.
pub open spec fn kind(t: Seq<HtmlToken>, i: int) -> NodeKind {
    t[i]->Open_0
}

/// The position just after the node at `i` (after its close token, or the
/// end when it is not closed).
pub open spec fn node_end(t: Seq<HtmlToken>, i: int) -> int
    decreases t.len() - i, 0int,
{
    if !is_open(t, i) {
        i + 1
    } else {
        let c = children_end(t, i + 1);
        if c < t.len() {
            c + 1
        } else {
            t.len() as int
        }
    }
}

/// The position after the children that start at `c`.
pub open spec fn children_end(t: Seq<HtmlToken>, c: int) -> int
    decreases t.len() - c, 1int,
{
    if is_open(t, c) {
        let e = node_end(t, c);
        if c < e <= t.len() {
            children_end(t, e)
        } else {
            c
        }
    } else {
        c
    }
}

/// A node ends after it starts, inside the list.
pub proof fn lemma_node_end(t: Seq<HtmlToken>, i: int)
    requires
        is_open(t, i),
    ensures
        i < node_end(t, i) <= t.len(),
    decreases t.len() - i, 0int,
{
    if i + 1 <= t.len() {
        lemma_children_end(t, i + 1);
    }
}

/// The children end at or after where they start, inside the list.
pub proof fn lemma_children_end(t: Seq<HtmlToken>, c: int)
    requires
        0 <= c <= t.len(),
    ensures
        c <= children_end(t, c) <= t.len(),
    decreases t.len() - c, 1int,
{
    if is_open(t, c) {
        lemma_node_end(t, c);
        let e = node_end(t, c);
        lemma_children_end(t, e);
    }
}

// ---------------------------------------------------------------------------
// Element classes and text
// ---------------------------------------------------------------------------

/// The name of an element node (empty for other nodes).
pub open spec fn elem_name(k: NodeKind) -> Seq<char> {
    match k {
        NodeKind::Element { name, .. } => name@,
        _ => Seq::<char>::empty(),
    }
}

/// Elements that are dropped with their content.
pub open spec fn is_skipped(n: Seq<char>) -> bool {
    n == "script"@ || n == "style"@ || n == "noscript"@ || n == "iframe"@ || n == "svg"@ || n == "form"@
}

/// Block-level elements.
pub open spec fn is_block(n: Seq<char>) -> bool {
    n == "p"@ || n == "div"@ || n == "h1"@ || n == "h2"@ || n == "h3"@ || n == "h4"@ || n == "h5"@ || n == "h6"@
        || n == "ul"@ || n == "ol"@ || n == "li"@ || n == "blockquote"@ || n == "table"@ || n == "tr"@
        || n == "td"@ || n == "figure"@ || n == "header"@ || n == "footer"@ || n == "main"@ || n == "article"@
        || n == "section"@
}

/// Elements without content.
pub open spec fn is_void(n: Seq<char>) -> bool {
    n == "area"@ || n == "base"@ || n == "br"@ || n == "col"@ || n == "embed"@ || n == "hr"@ || n == "img"@
        || n == "input"@ || n == "link"@ || n == "meta"@ || n == "param"@ || n == "source"@ || n == "track"@
        || n == "wbr"@
}

fn name_in(n: &[char], names: &[&str]) -> (b: bool)
    ensures
        b == exists|i: int| 0 <= i < names.len() && n@ == (#[trigger] names@[i])@,
{
    let mut i: usize = 0;
    while i < names.len()
        invariant
            i <= names.len(),
            forall|k: int| 0 <= k < i ==> n@ != (#[trigger] names@[k])@,
        decreases names.len() - i,
    {
        if chars_eq(n, &to_chars(names[i])) {
            return true;
        }
        i += 1;
    }
    false
}

fn is_skipped_exec(n: &[char]) -> (b: bool)
    ensures
        b == is_skipped(n@),
{
    let names = ["script", "style", "noscript", "iframe", "svg", "form"];
    let r = name_in(n, &names);
    proof {
        if is_skipped(n@) {
            if n@ == "script"@ { assert(names@[0]@ == "script"@); }
            if n@ == "style"@ { assert(names@[1]@ == "style"@); }
            if n@ == "noscript"@ { assert(names@[2]@ == "noscript"@); }
            if n@ == "iframe"@ { assert(names@[3]@ == "iframe"@); }
            if n@ == "svg"@ { assert(names@[4]@ == "svg"@); }
            if n@ == "form"@ { assert(names@[5]@ == "form"@); }
        }
    }
    r
}

fn is_block_exec(n: &[char]) -> (b: bool)
    ensures
        b == is_block(n@),
{
    let names = [
        "p", "div", "h1", "h2", "h3", "h4", "h5", "h6", "ul", "ol", "li", "blockquote", "table", "tr", "td",
        "figure", "header", "footer", "main", "article", "section",
    ];
    let r = name_in(n, &names);
    proof {
        assert(names@[0]@ == "p"@ && names@[1]@ == "div"@ && names@[2]@ == "h1"@ && names@[3]@ == "h2"@
            && names@[4]@ == "h3"@ && names@[5]@ == "h4"@ && names@[6]@ == "h5"@ && names@[7]@ == "h6"@
            && names@[8]@ == "ul"@ && names@[9]@ == "ol"@ && names@[10]@ == "li"@ && names@[11]@ == "blockquote"@
            && names@[12]@ == "table"@ && names@[13]@ == "tr"@ && names@[14]@ == "td"@ && names@[15]@ == "figure"@
            && names@[16]@ == "header"@ && names@[17]@ == "footer"@ && names@[18]@ == "main"@
            && names@[19]@ == "article"@ && names@[20]@ == "section"@);
        if r {
            let i = choose|i: int| 0 <= i < names.len() && n@ == (#[trigger] names@[i])@;
            assert(is_block(n@));
        }
        if is_block(n@) {
            assert(exists|i: int| 0 <= i < names.len() && n@ == (#[trigger] names@[i])@);
        }
    }
    r
}

fn is_void_exec(n: &[char]) -> (b: bool)
    ensures
        b == is_void(n@),
{
    let names = [
        "area", "base", "br", "col", "embed", "hr", "img", "input", "link", "meta", "param", "source", "track",
        "wbr",
    ];
    let r = name_in(n, &names);
    proof {
        assert(names@[0]@ == "area"@ && names@[1]@ == "base"@ && names@[2]@ == "br"@ && names@[3]@ == "col"@
            && names@[4]@ == "embed"@ && names@[5]@ == "hr"@ && names@[6]@ == "img"@ && names@[7]@ == "input"@
            && names@[8]@ == "link"@ && names@[9]@ == "meta"@ && names@[10]@ == "param"@
            && names@[11]@ == "source"@ && names@[12]@ == "track"@ && names@[13]@ == "wbr"@);
        if r {
            let i = choose|i: int| 0 <= i < names.len() && n@ == (#[trigger] names@[i])@;
            assert(is_void(n@));
        }
        if is_void(n@) {
            assert(exists|i: int| 0 <= i < names.len() && n@ == (#[trigger] names@[i])@);
        }
    }
    r
}

/// Text with `<` and `>` escaped.
pub open spec fn escape_text(s: Seq<char>) -> Seq<char> {
    replace_char_spec(replace_char_spec(s, '<', "&lt;"@), '>', "&gt;"@)
}

fn escape_text_exec(s: &str) -> (r: Vec<char>)
    ensures
        r@ == escape_text(s@),
{
    let a = replace_char(&to_chars(s), '<', &to_chars("&lt;"));
    replace_char(&a, '>', &to_chars("&gt;"))
}

/// ` k="v"` for each attribute, quotes in values escaped.
pub open spec fn attrs_text(attrs: Seq<(String, String)>) -> Seq<char>
    decreases attrs.len(),
{
    if attrs.len() == 0 {
        Seq::empty()
    } else {
        attrs_text(attrs.drop_last()) + seq![' '] + attrs.last().0@ + "=\""@
            + replace_char_spec(attrs.last().1@, '"', "&quot;"@) + seq!['"']
    }
}

/// The opening tag of an element.
pub open spec fn open_tag(k: NodeKind) -> Seq<char> {
    match k {
        NodeKind::Element { name, attrs } => seq!['<'] + name@ + attrs_text(attrs@) + seq!['>'],
        _ => Seq::<char>::empty(),
    }
}

fn open_tag_exec(name: &String, attrs: &Vec<(String, String)>) -> (r: Vec<char>)
    ensures
        r@ == seq!['<'] + name@ + attrs_text(attrs@) + seq!['>'],
{
    let mut v = vec!['<'];
    extend_str(&mut v, name.as_str());
    let ghost base = v@;
    let mut i: usize = 0;
    while i < attrs.len()
        invariant
            i <= attrs.len(),
            v@ == base + attrs_text(attrs@.take(i as int)),
        decreases attrs.len() - i,
    {
        assert(attrs@.take(i + 1).drop_last() =~= attrs@.take(i as int));
        let (k, val) = (&attrs[i].0, &attrs[i].1);
        v.push(' ');
        extend_str(&mut v, k.as_str());
        extend_str(&mut v, "=\"");
        extend_chars(&mut v, &replace_char(&to_chars(val.as_str()), '"', &to_chars("&quot;")));
        v.push('"');
        assert(v@ =~= base + attrs_text(attrs@.take(i + 1)));
        i += 1;
    }
    assert(attrs@.take(attrs.len() as int) =~= attrs@);
    v.push('>');
    v
}

// ---------------------------------------------------------------------------
// Serialisation and image tests
// ---------------------------------------------------------------------------

/// The HTML of the node at `i`, as written back (comments and roots dropped).
pub open spec fn serialize(t: Seq<HtmlToken>, i: int) -> Seq<char>
    decreases t.len() - i, 0int,
{
    if !is_open(t, i) {
        Seq::empty()
    } else {
        match kind(t, i) {
            NodeKind::Element { name, attrs } => if is_void(name@) {
                open_tag(kind(t, i))
            } else {
                open_tag(kind(t, i)) + serialize_children(t, i + 1) + "</"@ + name@ + seq!['>']
            },
            NodeKind::Text(x) => escape_text(x@),
            _ => Seq::empty(),
        }
    }
}

/// The HTML of the children that start at `c`.
pub open spec fn serialize_children(t: Seq<HtmlToken>, c: int) -> Seq<char>
    decreases t.len() - c, 1int,
{
    if is_open(t, c) {
        let e = node_end(t, c);
        if c < e <= t.len() {
            serialize(t, c) + serialize_children(t, e)
        } else {
            Seq::empty()
        }
    } else {
        Seq::empty()
    }
}

/// Some descendant of the node at `i` is an `img` element.
pub open spec fn has_image_descendant(t: Seq<HtmlToken>, i: int) -> bool
    decreases t.len() - i, 0int,
{
    is_open(t, i) && children_have_image(t, i + 1)
}

/// Some child from `c` on is an `img` or holds one.
pub open spec fn children_have_image(t: Seq<HtmlToken>, c: int) -> bool
    decreases t.len() - c, 1int,
{
    if is_open(t, c) {
        let e = node_end(t, c);
        if c < e <= t.len() {
            elem_name(kind(t, c)) == "img"@ && kind(t, c) is Element || has_image_descendant(t, c)
                || children_have_image(t, e)
        } else {
            false
        }
    } else {
        false
    }
}

/// The node at `i` is only an image: an `img`, a `figure` with such a child, or
/// a link holding an image and nothing but blank text besides.
pub open spec fn is_pure_image(t: Seq<HtmlToken>, i: int) -> bool
    decreases t.len() - i, 0int,
{
    if !is_open(t, i) || !(kind(t, i) is Element) {
        false
    } else {
        let n = elem_name(kind(t, i));
        if n == "img"@ {
            true
        } else if n == "figure"@ {
            children_any_pure_image(t, i + 1)
        } else if n == "a"@ {
            link_children(t, i + 1).0 && !link_children(t, i + 1).1
        } else {
            false
        }
    }
}

/// Some child from `c` on is only an image.
pub open spec fn children_any_pure_image(t: Seq<HtmlToken>, c: int) -> bool
    decreases t.len() - c, 1int,
{
    if is_open(t, c) {
        let e = node_end(t, c);
        if c < e <= t.len() {
            is_pure_image(t, c) || children_any_pure_image(t, e)
        } else {
            false
        }
    } else {
        false
    }
}

/// Among the children from `c` on: whether one is an `img`, and whether one is
/// anything but an `img` or blank text.
pub open spec fn link_children(t: Seq<HtmlToken>, c: int) -> (bool, bool)
    decreases t.len() - c,
{
    if is_open(t, c) {
        let e = node_end(t, c);
        if c < e <= t.len() {
            let rest = link_children(t, e);
            match kind(t, c) {
                NodeKind::Element { name, .. } => if name@ == "img"@ {
                    (true, rest.1)
                } else {
                    (rest.0, true)
                },
                NodeKind::Text(x) => if trim_spec(x@).len() == 0 {
                    rest
                } else {
                    (rest.0, true)
                },
                _ => (rest.0, true),
            }
        } else {
            (false, false)
        }
    } else {
        (false, false)
    }
}

// ---------------------------------------------------------------------------
// Executable structure
// ---------------------------------------------------------------------------

fn is_open_exec(t: &[HtmlToken], i: usize) -> (b: bool)
    ensures
        b == is_open(t@, i as int),
{
    i < t.len() && match &t[i] {
        HtmlToken::Open(_) => true,
        HtmlToken::Close => false,
    }
}

/// The HTML of the node at `i`, appended to `out`; returns where the node ends.
fn serialize_exec(t: &[HtmlToken], i: usize, out: &mut Vec<char>) -> (e: usize)
    requires
        is_open(t@, i as int),
    ensures
        final(out)@ == old(out)@ + serialize(t@, i as int),
        e == node_end(t@, i as int),
    decreases t.len() - i,
{
    proof {
        lemma_node_end(t@, i as int);
    }
    let k = match &t[i] {
        HtmlToken::Open(k) => k,
        HtmlToken::Close => {
            return i + 1;
        },
    };
    match k {
        NodeKind::Element { name, attrs } => {
            let nv = to_chars(name.as_str());
            extend_chars(out, &open_tag_exec(name, attrs));
            if is_void_exec(&nv) {
                assert(t@[i as int] == HtmlToken::Open(*k));
                return node_end_exec(t, i);
            }
            let ghost prefix = out@;
            let mut c = i + 1;
            proof {
                lemma_children_end(t@, c as int);
            }
            while is_open_exec(t, c)
                invariant
                    i < c <= t.len(),
                    out@ + serialize_children(t@, c as int) == prefix + serialize_children(t@, i + 1),
                    children_end(t@, c as int) == children_end(t@, i + 1),
                decreases t.len() - c,
            {
                proof {
                    lemma_node_end(t@, c as int);
                }
                let ghost before = out@;
                let e = serialize_exec(t, c, out);
                assert(before + serialize_children(t@, c as int) == before + serialize(t@, c as int) + serialize_children(t@, e as int));
                c = e;
            }
            extend_str(out, "</");
            extend_chars(out, &nv);
            out.push('>');
            if c < t.len() {
                c + 1
            } else {
                t.len()
            }
        },
        NodeKind::Text(x) => {
            extend_chars(out, &escape_text_exec(x.as_str()));
            node_end_exec(t, i)
        },
        _ => node_end_exec(t, i),
    }
}

/// Where the node at `i` ends, scanning its children.
fn node_end_exec(t: &[HtmlToken], i: usize) -> (e: usize)
    requires
        is_open(t@, i as int),
    ensures
        e == node_end(t@, i as int),
    decreases t.len() - i,
{
    let mut c = i + 1;
    proof {
        lemma_children_end(t@, c as int);
    }
    while is_open_exec(t, c)
        invariant
            i < c <= t.len(),
            children_end(t@, c as int) == children_end(t@, i + 1),
        decreases t.len() - c,
    {
        proof {
            lemma_node_end(t@, c as int);
        }
        c = node_end_exec(t, c);
    }
    if c < t.len() {
        c + 1
    } else {
        t.len()
    }
}

/// The element name at `i`, when the node there is an element.
fn element_name_at(t: &[HtmlToken], i: usize) -> (r: Option<Vec<char>>)
    requires
        is_open(t@, i as int),
    ensures
        kind(t@, i as int) is Element <==> r is Some,
        r is Some ==> r->0@ == elem_name(kind(t@, i as int)),
{
    match &t[i] {
        HtmlToken::Open(NodeKind::Element { name, .. }) => Some(to_chars(name.as_str())),
        _ => None,
    }
}

fn is_img_at(t: &[HtmlToken], c: usize) -> (b: bool)
    requires
        is_open(t@, c as int),
    ensures
        b == (elem_name(kind(t@, c as int)) == "img"@ && kind(t@, c as int) is Element),
{
    match element_name_at(t, c) {
        Some(n) => chars_eq(&n, &to_chars("img")),
        None => false,
    }
}

/// Whether an `img` lies below the node at `i`.
fn has_image_descendant_exec(t: &[HtmlToken], i: usize) -> (b: bool)
    requires
        is_open(t@, i as int),
    ensures
        b == has_image_descendant(t@, i as int),
    decreases t.len() - i,
{
    let mut c = i + 1;
    while is_open_exec(t, c)
        invariant
            i < c <= t.len(),
            is_open(t@, i as int),
            children_have_image(t@, c as int) == children_have_image(t@, i + 1),
        decreases t.len() - c,
    {
        proof {
            lemma_node_end(t@, c as int);
        }
        if is_img_at(t, c) || has_image_descendant_exec(t, c) {
            assert(children_have_image(t@, c as int));
            assert(children_have_image(t@, i + 1));
            assert(has_image_descendant(t@, i as int));
            return true;
        }
        c = node_end_exec(t, c);
    }
    false
}

/// Among the children from `c`: an `img`, and anything but an `img` or blank text.
fn link_children_exec(t: &[HtmlToken], start: usize) -> (r: (bool, bool))
    requires
        0 < start <= t.len(),
    ensures
        r == link_children(t@, start as int),
{
    let mut c = start;
    let mut has_img = false;
    let mut has_other = false;
    while is_open_exec(t, c)
        invariant
            start <= c <= t.len(),
            link_children(t@, start as int) == (has_img || link_children(t@, c as int).0, has_other || link_children(t@, c as int).1),
        decreases t.len() - c,
    {
        proof {
            lemma_node_end(t@, c as int);
        }
        match &t[c] {
            HtmlToken::Open(NodeKind::Element { name, .. }) => {
                if chars_eq(&to_chars(name.as_str()), &to_chars("img")) {
                    has_img = true;
                } else {
                    has_other = true;
                }
            },
            HtmlToken::Open(NodeKind::Text(x)) => {
                if !is_blank(&to_chars(x.as_str())) {
                    has_other = true;
                }
            },
            _ => {
                has_other = true;
            },
        }
        c = node_end_exec(t, c);
    }
    (has_img, has_other)
}

/// Whether the node at `i` is only an image.
fn is_pure_image_exec(t: &[HtmlToken], i: usize) -> (b: bool)
    requires
        is_open(t@, i as int),
    ensures
        b == is_pure_image(t@, i as int),
    decreases t.len() - i,
{
    let n = match element_name_at(t, i) {
        Some(n) => n,
        None => {
            return false;
        },
    };
    if chars_eq(&n, &to_chars("img")) {
        return true;
    }
    if chars_eq(&n, &to_chars("figure")) {
        proof {
            reveal_strlit("img");
            reveal_strlit("figure");
            assert(n@ != "img"@);
        }
        let mut c = i + 1;
        while is_open_exec(t, c)
            invariant
                i < c <= t.len(),
                is_open(t@, i as int),
                kind(t@, i as int) is Element,
                elem_name(kind(t@, i as int)) == "figure"@,
                children_any_pure_image(t@, c as int) == children_any_pure_image(t@, i + 1),
            decreases t.len() - c,
        {
            proof {
                lemma_node_end(t@, c as int);
            }
            if is_pure_image_exec(t, c) {
                assert(children_any_pure_image(t@, c as int));
                assert(children_any_pure_image(t@, i + 1));
                assert(is_pure_image(t@, i as int));
                return true;
            }
            c = node_end_exec(t, c);
        }
        return false;
    }
    if chars_eq(&n, &to_chars("a")) {
        let (has_img, has_other) = link_children_exec(t, i + 1);
        return has_img && !has_other;
    }
    false
}

// ---------------------------------------------------------------------------
// Extraction
// ---------------------------------------------------------------------------

/// The work so far: the skeleton, the blocks (block `n` is `[[TEXT_n]]`), and
/// the text gathered for the next block.
pub struct Extraction {
    pub skeleton: Seq<char>,
    pub blocks: Seq<Seq<char>>,
    pub acc: Seq<char>,
}

/// Nothing done yet.
pub open spec fn extraction_start() -> Extraction {
    Extraction { skeleton: Seq::empty(), blocks: Seq::empty(), acc: Seq::empty() }
}

/// Closes the gathered text: a block with its placeholder in the skeleton, or,
/// when it is only whitespace, straight into the skeleton.
pub open spec fn flush(s: Extraction) -> Extraction {
    if s.acc.len() == 0 {
        s
    } else if trim_spec(s.acc).len() > 0 {
        Extraction {
            skeleton: s.skeleton + "[[TEXT_"@ + dec_spec(s.blocks.len() as int) + "]]\n"@,
            blocks: s.blocks.push(s.acc),
            acc: Seq::empty(),
        }
    } else {
        Extraction { skeleton: s.skeleton + s.acc, blocks: s.blocks, acc: Seq::empty() }
    }
}

/// Adds to the skeleton.
pub open spec fn emit(s: Extraction, x: Seq<char>) -> Extraction {
    Extraction { skeleton: s.skeleton + x, ..s }
}

/// Adds to the gathered text.
pub open spec fn gather(s: Extraction, x: Seq<char>) -> Extraction {
    Extraction { acc: s.acc + x, ..s }
}

/// The node at `i` processed: dropped elements vanish; images go to the
/// skeleton whole; block elements, void elements and elements holding images
/// go to the skeleton as tags around their processed children; text and other
/// inline markup are gathered.
pub open spec fn process(t: Seq<HtmlToken>, i: int, s: Extraction) -> Extraction
    decreases t.len() - i, 0int,
{
    if !is_open(t, i) {
        s
    } else {
        match kind(t, i) {
            NodeKind::Container => flush(process_children(t, i + 1, s)),
            NodeKind::Text(x) => gather(s, escape_text(x@)),
            NodeKind::Other => s,
            NodeKind::Element { name, .. } => {
                let n = name@;
                if is_skipped(n) {
                    s
                } else if is_pure_image(t, i) {
                    emit(flush(s), serialize(t, i) + seq!['\n'])
                } else if is_block(n) || has_image_descendant(t, i) || is_void(n) {
                    let s2 = emit(flush(s), open_tag(kind(t, i)));
                    if is_void(n) {
                        s2
                    } else {
                        emit(flush(process_children(t, i + 1, s2)), "</"@ + n + ">\n"@)
                    }
                } else {
                    gather(s, serialize(t, i))
                }
            },
        }
    }
}

/// The children from `c` on processed in order.
pub open spec fn process_children(t: Seq<HtmlToken>, c: int, s: Extraction) -> Extraction
    decreases t.len() - c, 1int,
{
    if is_open(t, c) {
        let e = node_end(t, c);
        if c < e <= t.len() {
            process_children(t, e, process(t, c, s))
        } else {
            s
        }
    } else {
        s
    }
}

/// The skeleton (trimmed) and blocks of a parsed fragment: the root's children
/// processed, the last text closed.
pub open spec fn extract_spec(t: Seq<HtmlToken>) -> (Seq<char>, Seq<Seq<char>>) {
    if is_open(t, 0) {
        let s = flush(process_children(t, 1, extraction_start()));
        (trim_spec(s.skeleton), s.blocks)
    } else {
        (Seq::empty(), Seq::empty())
    }
}

/// `script`, `style`, `noscript`, `iframe`, `svg` and `form` elements are
/// dropped with all they hold: processing one changes neither the skeleton,
/// nor the blocks, nor the text gathered so far.
pub proof fn lemma_dropped_elements(t: Seq<HtmlToken>, i: int, s: Extraction)
    requires
        is_open(t, i),
        kind(t, i) is Element,
        elem_name(kind(t, i)) == "script"@ || elem_name(kind(t, i)) == "style"@ || elem_name(kind(t, i))
            == "noscript"@ || elem_name(kind(t, i)) == "iframe"@ || elem_name(kind(t, i)) == "svg"@
            || elem_name(kind(t, i)) == "form"@,
    ensures
        process(t, i, s) == s,
{
}

/// The placeholder of block `n` in a skeleton: `[[TEXT_n]]`.
pub open spec fn block_placeholder(n: int) -> Seq<char> {
    "[[TEXT_"@ + dec_spec(n) + "]]"@
}

/// Every block so far has non-blank text and its placeholder in the skeleton.
pub open spec fn extraction_ok(s: Extraction) -> bool {
    forall|k: int|
        0 <= k < s.blocks.len() ==> trim_spec(#[trigger] s.blocks[k]).len() > 0 && occurs(
            s.skeleton,
            block_placeholder(k),
        )
}

proof fn lemma_emit_ok(s: Extraction, x: Seq<char>)
    requires
        extraction_ok(s),
    ensures
        extraction_ok(emit(s, x)),
{
    assert forall|k: int| 0 <= k < s.blocks.len() implies occurs(s.skeleton + x, block_placeholder(k)) by {
        assert(trim_spec(s.blocks[k]).len() > 0);
        lemma_occurs_append(s.skeleton, x, block_placeholder(k));
    }
}

proof fn lemma_flush_ok(s: Extraction)
    requires
        extraction_ok(s),
    ensures
        extraction_ok(flush(s)),
{
    if s.acc.len() > 0 {
        if trim_spec(s.acc).len() > 0 {
            let n = s.blocks.len() as int;
            let tail = "[[TEXT_"@ + dec_spec(n) + "]]\n"@;
            let f = flush(s);
            assert(f.skeleton =~= s.skeleton + tail);
            assert forall|k: int| 0 <= k < f.blocks.len() implies trim_spec(#[trigger] f.blocks[k]).len() > 0
                && occurs(f.skeleton, block_placeholder(k)) by {
                if k < n {
                    assert(f.blocks[k] == s.blocks[k]);
                    assert(trim_spec(s.blocks[k]).len() > 0);
                    lemma_occurs_append(s.skeleton, tail, block_placeholder(k));
                } else {
                    reveal_strlit("]]\n");
                    reveal_strlit("]]");
                    let p = block_placeholder(n);
                    assert(f.skeleton.subrange(s.skeleton.len() as int, s.skeleton.len() + p.len() as int) =~= p);
                    assert(matches_at(f.skeleton, p, s.skeleton.len() as int));
                }
            }
        } else {
            lemma_emit_ok(s, s.acc);
            assert(flush(s) == Extraction { acc: Seq::empty(), ..emit(s, s.acc) });
        }
    }
}

proof fn lemma_process_ok(t: Seq<HtmlToken>, i: int, s: Extraction)
    requires
        extraction_ok(s),
    ensures
        extraction_ok(process(t, i, s)),
    decreases t.len() - i, 0int,
{
    if is_open(t, i) {
        match kind(t, i) {
            NodeKind::Container => {
                lemma_process_children_ok(t, i + 1, s);
                lemma_flush_ok(process_children(t, i + 1, s));
            },
            NodeKind::Text(x) => {},
            NodeKind::Other => {},
            NodeKind::Element { name, .. } => {
                let n = name@;
                if is_skipped(n) {
                } else if is_pure_image(t, i) {
                    lemma_flush_ok(s);
                    lemma_emit_ok(flush(s), serialize(t, i) + seq!['\n']);
                } else if is_block(n) || has_image_descendant(t, i) || is_void(n) {
                    lemma_flush_ok(s);
                    let s2 = emit(flush(s), open_tag(kind(t, i)));
                    lemma_emit_ok(flush(s), open_tag(kind(t, i)));
                    if !is_void(n) {
                        lemma_process_children_ok(t, i + 1, s2);
                        lemma_flush_ok(process_children(t, i + 1, s2));
                        lemma_emit_ok(flush(process_children(t, i + 1, s2)), "</"@ + n + ">\n"@);
                    }
                } else {
                }
            },
        }
    }
}

proof fn lemma_process_children_ok(t: Seq<HtmlToken>, c: int, s: Extraction)
    requires
        extraction_ok(s),
    ensures
        extraction_ok(process_children(t, c, s)),
    decreases t.len() - c, 1int,
{
    if is_open(t, c) {
        let e = node_end(t, c);
        if c < e <= t.len() {
            lemma_process_ok(t, c, s);
            lemma_process_children_ok(t, e, process(t, c, s));
        }
    }
}

/// The shape of an extraction: the skeleton is trimmed, every block has
/// non-blank text, and the placeholder `[[TEXT_n]]` of every block `n`
/// stands in the skeleton.
pub proof fn lemma_extraction_shape(t: Seq<HtmlToken>)
    ensures
        trim_spec(extract_spec(t).0) == extract_spec(t).0,
        forall|k: int|
            0 <= k < extract_spec(t).1.len() ==> trim_spec(#[trigger] extract_spec(t).1[k]).len() > 0
                && occurs(extract_spec(t).0, block_placeholder(k)),
{
    if is_open(t, 0) {
        let s = flush(process_children(t, 1, extraction_start()));
        lemma_process_children_ok(t, 1, extraction_start());
        lemma_flush_ok(process_children(t, 1, extraction_start()));
        lemma_trim_idempotent(s.skeleton);
        assert forall|k: int| 0 <= k < s.blocks.len() implies occurs(trim_spec(s.skeleton), block_placeholder(k)) by {
            assert(trim_spec(s.blocks[k]).len() > 0);
            reveal_strlit("[[TEXT_");
            reveal_strlit("]]");
            let p = block_placeholder(k);
            assert(p[0] == '[');
            assert(p.last() == ']');
            lemma_trim_keeps(s.skeleton, p);
        }
    } else {
        assert(trim_spec(Seq::<char>::empty()) =~= Seq::<char>::empty());
    }
}

/// `x` holds no `[`.
pub open spec fn no_bracket(x: Seq<char>) -> bool {
    forall|j: int| 0 <= j < x.len() ==> x[j] != '['
}

/// `[[` stands at `i`.
pub open spec fn double_bracket_at(s: Seq<char>, i: int) -> bool {
    0 <= i && i + 1 < s.len() && s[i] == '[' && s[i + 1] == '['
}

/// Every `[[` of the skeleton starts the placeholder of a block, the skeleton
/// does not end in `[`, and each block's placeholder stands at one place.
pub open spec fn placeholders_unique(s: Extraction) -> bool {
    &&& forall|i: int|
        #[trigger] double_bracket_at(s.skeleton, i) ==> exists|m: int|
            0 <= m < s.blocks.len() && #[trigger] matches_at(s.skeleton, block_placeholder(m), i)
    &&& (s.skeleton.len() > 0 ==> s.skeleton.last() != '[')
    &&& forall|m: int, i: int, j: int|
        #![trigger matches_at(s.skeleton, block_placeholder(m), i), matches_at(s.skeleton, block_placeholder(m), j)]
        0 <= m && matches_at(s.skeleton, block_placeholder(m), i) && matches_at(
            s.skeleton,
            block_placeholder(m),
            j,
        ) ==> i == j
}

/// Nothing that the extraction copies into the skeleton as it is (an opening
/// tag, an element's name, a whole image) holds a `[`.
pub open spec fn copies_no_bracket(t: Seq<HtmlToken>) -> bool {
    forall|i: int|
        #[trigger] is_open(t, i) && kind(t, i) is Element ==> {
            &&& no_bracket(open_tag(kind(t, i)))
            &&& no_bracket(elem_name(kind(t, i)))
            &&& (is_pure_image(t, i) ==> no_bracket(serialize(t, i)))
        }
}

proof fn lemma_dec_digits(n: int)
    requires
        n >= 0,
    ensures
        dec_spec(n).len() > 0,
        forall|j: int| 0 <= j < dec_spec(n).len() ==> (#[trigger] dec_spec(n)[j]) != ']' && dec_spec(n)[j] != '['
            && dec_spec(n)[j] != '\n',
        digits_value(dec_spec(n), 10) == Some(n as nat),
{
    lemma_radix_digits_value(n as nat, 10);
    assert forall|j: int| 0 <= j < dec_spec(n).len() implies (#[trigger] dec_spec(n)[j]) != ']' && dec_spec(n)[j] != '['
        && dec_spec(n)[j] != '\n' by {
        assert(digit_val(dec_spec(n)[j], 10) is Some);
    }
}

/// Two placeholders that start at one place are the same block's.
proof fn lemma_placeholder_prefix(s: Seq<char>, i: int, m: int, k: int)
    requires
        0 <= m,
        0 <= k,
        matches_at(s, block_placeholder(m), i),
        matches_at(s, block_placeholder(k), i),
    ensures
        m == k,
{
    reveal_strlit("[[TEXT_");
    reveal_strlit("]]");
    lemma_dec_digits(m);
    lemma_dec_digits(k);
    let a = dec_spec(m);
    let b = dec_spec(k);
    let pm = block_placeholder(m);
    let pk = block_placeholder(k);
    assert forall|q: int| 0 <= q < pm.len() implies s[i + q] == #[trigger] pm[q] by {
        assert(s.subrange(i, i + pm.len())[q] == pm[q]);
    }
    assert forall|q: int| 0 <= q < pk.len() implies s[i + q] == #[trigger] pk[q] by {
        assert(s.subrange(i, i + pk.len())[q] == pk[q]);
    }
    if a.len() < b.len() {
        assert(pm[7 + a.len() as int] == ']');
        assert(pk[7 + a.len() as int] == b[a.len() as int]);
        assert(false);
    } else if b.len() < a.len() {
        assert(pk[7 + b.len() as int] == ']');
        assert(pm[7 + b.len() as int] == a[b.len() as int]);
        assert(false);
    } else {
        assert forall|q: int| 0 <= q < a.len() implies a[q] == b[q] by {
            assert(pm[7 + q] == a[q]);
            assert(pk[7 + q] == b[q]);
        }
        assert(a =~= b);
    }
}

/// A blank text holds no `[`.
proof fn lemma_blank_no_bracket(x: Seq<char>)
    requires
        trim_spec(x).len() == 0,
    ensures
        no_bracket(x),
{
    lemma_trim_end(x);
    lemma_trim_start(trim_end_spec(x));
    assert forall|j: int| 0 <= j < x.len() implies x[j] != '[' by {
        if j < trim_end_spec(x).len() {
            lemma_trim_start_head(trim_end_spec(x), j);
            assert(trim_end_spec(x)[j] == x[j]);
        } else {
            lemma_trim_end_tail(x, j);
        }
    }
}

proof fn lemma_emit_unique(s: Extraction, x: Seq<char>)
    requires
        placeholders_unique(s),
        no_bracket(x),
    ensures
        placeholders_unique(emit(s, x)),
{
    reveal_strlit("[[TEXT_");
    let a = s.skeleton;
    let n = a + x;
    assert forall|i: int| #[trigger] double_bracket_at(n, i) implies exists|m: int|
        0 <= m < s.blocks.len() && #[trigger] matches_at(n, block_placeholder(m), i) by {
        if i + 1 >= a.len() {
            if i + 1 == a.len() {
                assert(n[i + 1] == x[0]);
            } else {
                assert(n[i] == x[i - a.len()]);
            }
        }
        assert(double_bracket_at(a, i));
        let m = choose|m: int| 0 <= m < s.blocks.len() && #[trigger] matches_at(a, block_placeholder(m), i);
        assert(n.subrange(i, i + block_placeholder(m).len()) =~= a.subrange(i, i + block_placeholder(m).len()));
        assert(matches_at(n, block_placeholder(m), i));
    }
    if x.len() > 0 {
        assert(n.last() == x[x.len() - 1]);
    } else {
        assert(n =~= a);
    }
    assert forall|m: int, i: int| 0 <= m && #[trigger] matches_at(n, block_placeholder(m), i) implies matches_at(
        a,
        block_placeholder(m),
        i,
    ) by {
        let p = block_placeholder(m);
        assert(n[i] == '[' && n[i + 1] == '[') by {
            assert(n.subrange(i, i + p.len())[0] == p[0]);
            assert(n.subrange(i, i + p.len())[1] == p[1]);
        }
        assert(double_bracket_at(n, i));
        let m2 = choose|m2: int| 0 <= m2 < s.blocks.len() && #[trigger] matches_at(n, block_placeholder(m2), i);
        lemma_placeholder_prefix(n, i, m, m2);
        if i + 1 >= a.len() {
            if i + 1 == a.len() {
                assert(n[i + 1] == x[0]);
            } else {
                assert(n[i] == x[i - a.len()]);
            }
        }
        assert(double_bracket_at(a, i));
        let m3 = choose|m3: int| 0 <= m3 < s.blocks.len() && #[trigger] matches_at(a, block_placeholder(m3), i);
        assert(n.subrange(i, i + block_placeholder(m3).len()) =~= a.subrange(i, i + block_placeholder(m3).len()));
        lemma_placeholder_prefix(n, i, m, m3);
    }
}

proof fn lemma_flush_unique(s: Extraction)
    requires
        placeholders_unique(s),
    ensures
        placeholders_unique(flush(s)),
{
    if s.acc.len() > 0 {
        if trim_spec(s.acc).len() > 0 {
            reveal_strlit("[[TEXT_");
            reveal_strlit("]]\n");
            reveal_strlit("]]");
            let bn = s.blocks.len() as int;
            lemma_dec_digits(bn);
            let d = dec_spec(bn);
            let tail = "[[TEXT_"@ + d + "]]\n"@;
            let a = s.skeleton;
            let f = flush(s);
            let n = f.skeleton;
            assert(n =~= a + tail);
            let l = a.len() as int;
            let ph = block_placeholder(bn);
            assert(n.subrange(l, l + ph.len()) =~= ph);
            assert(matches_at(n, ph, l));
            // the tail holds `[` only at its first two places
            assert forall|q: int| 2 <= q < tail.len() implies #[trigger] tail[q] != '[' by {
                if 7 <= q < 7 + d.len() {
                    assert(tail[q] == d[q - 7]);
                }
            }
            assert forall|i: int| #[trigger] double_bracket_at(n, i) && i != l implies double_bracket_at(a, i) by {
                if i + 1 >= l {
                    if i + 1 == l {
                        assert(n[i] == a.last());
                    } else {
                        assert(n[i + 1] == tail[i + 1 - l]);
                    }
                }
            }
            assert forall|i: int| #[trigger] double_bracket_at(n, i) implies exists|m: int|
                0 <= m < f.blocks.len() && #[trigger] matches_at(n, block_placeholder(m), i) by {
                if i != l {
                    assert(double_bracket_at(a, i));
                    let m = choose|m: int| 0 <= m < s.blocks.len() && #[trigger] matches_at(a, block_placeholder(m), i);
                    assert(n.subrange(i, i + block_placeholder(m).len()) =~= a.subrange(
                        i,
                        i + block_placeholder(m).len(),
                    ));
                    assert(matches_at(n, block_placeholder(m), i));
                } else {
                    assert(matches_at(n, block_placeholder(bn), i));
                }
            }
            assert(n.last() == '\n');
            assert forall|m: int, i: int| 0 <= m && #[trigger] matches_at(n, block_placeholder(m), i) implies (if m
                == bn {
                i == l
            } else {
                matches_at(a, block_placeholder(m), i)
            }) by {
                let p = block_placeholder(m);
                assert(n[i] == '[' && n[i + 1] == '[') by {
                    assert(n.subrange(i, i + p.len())[0] == p[0]);
                    assert(n.subrange(i, i + p.len())[1] == p[1]);
                }
                assert(double_bracket_at(n, i));
                if i == l {
                    lemma_placeholder_prefix(n, i, m, bn);
                } else {
                    assert(double_bracket_at(a, i));
                    let m3 = choose|m3: int| 0 <= m3 < s.blocks.len() && #[trigger] matches_at(a, block_placeholder(m3), i);
                    assert(n.subrange(i, i + block_placeholder(m3).len()) =~= a.subrange(
                        i,
                        i + block_placeholder(m3).len(),
                    ));
                    lemma_placeholder_prefix(n, i, m, m3);
                }
            }
        } else {
            lemma_blank_no_bracket(s.acc);
            lemma_emit_unique(s, s.acc);
            assert(flush(s).skeleton == emit(s, s.acc).skeleton);
        }
    }
}

proof fn lemma_no_bracket_add(a: Seq<char>, b: Seq<char>)
    requires
        no_bracket(a),
        no_bracket(b),
    ensures
        no_bracket(a + b),
{
    assert forall|j: int| 0 <= j < (a + b).len() implies (a + b)[j] != '[' by {
        if j >= a.len() {
            assert((a + b)[j] == b[j - a.len()]);
        }
    }
}

proof fn lemma_process_unique(t: Seq<HtmlToken>, i: int, s: Extraction)
    requires
        placeholders_unique(s),
        copies_no_bracket(t),
    ensures
        placeholders_unique(process(t, i, s)),
    decreases t.len() - i, 0int,
{
    if is_open(t, i) {
        match kind(t, i) {
            NodeKind::Container => {
                lemma_process_children_unique(t, i + 1, s);
                lemma_flush_unique(process_children(t, i + 1, s));
            },
            NodeKind::Text(x) => {},
            NodeKind::Other => {},
            NodeKind::Element { name, .. } => {
                let n = name@;
                assert(is_open(t, i) && kind(t, i) is Element);
                if is_skipped(n) {
                } else if is_pure_image(t, i) {
                    lemma_flush_unique(s);
                    assert(no_bracket(seq!['\n']));
                    lemma_no_bracket_add(serialize(t, i), seq!['\n']);
                    lemma_emit_unique(flush(s), serialize(t, i) + seq!['\n']);
                } else if is_block(n) || has_image_descendant(t, i) || is_void(n) {
                    lemma_flush_unique(s);
                    let s2 = emit(flush(s), open_tag(kind(t, i)));
                    lemma_emit_unique(flush(s), open_tag(kind(t, i)));
                    if !is_void(n) {
                        lemma_process_children_unique(t, i + 1, s2);
                        lemma_flush_unique(process_children(t, i + 1, s2));
                        reveal_strlit("</");
                        reveal_strlit(">\n");
                        assert(no_bracket("</"@));
                        assert(no_bracket(">\n"@));
                        lemma_no_bracket_add("</"@, n);
                        lemma_no_bracket_add("</"@ + n, ">\n"@);
                        lemma_emit_unique(flush(process_children(t, i + 1, s2)), "</"@ + n + ">\n"@);
                    }
                } else {
                }
            },
        }
    }
}

proof fn lemma_process_children_unique(t: Seq<HtmlToken>, c: int, s: Extraction)
    requires
        placeholders_unique(s),
        copies_no_bracket(t),
    ensures
        placeholders_unique(process_children(t, c, s)),
    decreases t.len() - c, 1int,
{
    if is_open(t, c) {
        let e = node_end(t, c);
        if c < e <= t.len() {
            lemma_process_unique(t, c, s);
            lemma_process_children_unique(t, e, process(t, c, s));
        }
    }
}

/// When nothing that the extraction copies into the skeleton as it is holds a
/// `[`, the placeholder `[[TEXT_n]]` of a block stands at only one place of
/// the skeleton (it stands there at least once by `lemma_extraction_shape`).
/// An attribute whose value is placeholder text, as in
/// `<img alt="[[TEXT_0]]"><p>Hi</p>`, gives a second copy.
pub proof fn lemma_placeholder_once(t: Seq<HtmlToken>, k: int, i: int, j: int)
    requires
        copies_no_bracket(t),
        0 <= k < extract_spec(t).1.len(),
        matches_at(extract_spec(t).0, block_placeholder(k), i),
        matches_at(extract_spec(t).0, block_placeholder(k), j),
    ensures
        i == j,
{
    let s0 = extraction_start();
    assert(placeholders_unique(s0));
    let s = flush(process_children(t, 1, s0));
    lemma_process_children_unique(t, 1, s0);
    lemma_flush_unique(process_children(t, 1, s0));
    let a = s.skeleton;
    let y = trim_end_spec(a);
    let x = trim_start_spec(y);
    lemma_trim_end(a);
    lemma_trim_start(y);
    let d = y.len() - x.len();
    let p = block_placeholder(k);
    assert(a.subrange(i + d, i + d + p.len()) =~= x.subrange(i, i + p.len()));
    assert(a.subrange(j + d, j + d + p.len()) =~= x.subrange(j, j + p.len()));
    assert(matches_at(a, p, i + d));
    assert(matches_at(a, p, j + d));
}

/// The executable state of an extraction.
pub struct Extractor {
    pub skeleton: Vec<char>,
    pub blocks: Vec<Vec<char>>,
    pub acc: Vec<char>,
}

impl Extractor {
    /// What the state stands for.
    pub open spec fn state(&self) -> Extraction {
        Extraction {
            skeleton: self.skeleton@,
            blocks: self.blocks@.map_values(|b: Vec<char>| b@),
            acc: self.acc@,
        }
    }
}

/// Closes the gathered text (`flush`).
pub fn flush_acc(x: &mut Extractor)
    ensures
        final(x).state() == flush(old(x).state()),
{
    if x.acc.len() == 0 {
        return;
    }
    if !is_blank(&x.acc) {
        let n = x.blocks.len();
        extend_str(&mut x.skeleton, "[[TEXT_");
        extend_chars(&mut x.skeleton, &u64_to_dec(n as u64));
        extend_str(&mut x.skeleton, "]]\n");
        let mut acc: Vec<char> = Vec::new();
        std::mem::swap(&mut acc, &mut x.acc);
        x.blocks.push(acc);
        assert(x.blocks@.map_values(|b: Vec<char>| b@) =~= old(x).blocks@.map_values(|b: Vec<char>| b@).push(old(x).acc@));
    } else {
        let mut acc: Vec<char> = Vec::new();
        std::mem::swap(&mut acc, &mut x.acc);
        extend_chars(&mut x.skeleton, &acc);
    }
}

/// Processes the node at `i`; returns where it ends.
fn process_node(t: &[HtmlToken], i: usize, x: &mut Extractor) -> (e: usize)
    requires
        is_open(t@, i as int),
    ensures
        final(x).state() == process(t@, i as int, old(x).state()),
        e == node_end(t@, i as int),
    decreases t.len() - i, 1int,
{
    proof {
        lemma_node_end(t@, i as int);
    }
    let k = match &t[i] {
        HtmlToken::Open(k) => k,
        HtmlToken::Close => {
            return i + 1;
        },
    };
    match k {
        NodeKind::Container => {
            let c = process_children_exec(t, i, x);
            flush_acc(x);
            if c < t.len() {
                c + 1
            } else {
                t.len()
            }
        },
        NodeKind::Text(s) => {
            extend_chars(&mut x.acc, &escape_text_exec(s.as_str()));
            node_end_exec(t, i)
        },
        NodeKind::Other => node_end_exec(t, i),
        NodeKind::Element { name, attrs } => {
            let n = to_chars(name.as_str());
            if is_skipped_exec(&n) {
                return node_end_exec(t, i);
            }
            if is_pure_image_exec(t, i) {
                flush_acc(x);
                let ghost s1 = x.state();
                let e = serialize_exec(t, i, &mut x.skeleton);
                x.skeleton.push('\n');
                assert(x.state().skeleton =~= s1.skeleton + (serialize(t@, i as int) + seq!['\n']));
                assert(x.state() == emit(s1, serialize(t@, i as int) + seq!['\n']));
                return e;
            }
            let void = is_void_exec(&n);
            if is_block_exec(&n) || has_image_descendant_exec(t, i) || void {
                flush_acc(x);
                extend_chars(&mut x.skeleton, &open_tag_exec(name, attrs));
                if void {
                    return node_end_exec(t, i);
                }
                let c = process_children_exec(t, i, x);
                flush_acc(x);
                let ghost s4 = x.state();
                extend_str(&mut x.skeleton, "</");
                extend_chars(&mut x.skeleton, &n);
                extend_str(&mut x.skeleton, ">\n");
                assert(x.state().skeleton =~= s4.skeleton + ("</"@ + n@ + ">\n"@));
                assert(x.state() == emit(s4, "</"@ + n@ + ">\n"@));
                if c < t.len() {
                    c + 1
                } else {
                    t.len()
                }
            } else {
                serialize_exec(t, i, &mut x.acc)
            }
        },
    }
}

/// Processes the children of the node at `i`; returns where they end.
fn process_children_exec(t: &[HtmlToken], i: usize, x: &mut Extractor) -> (c: usize)
    requires
        0 <= i < t.len(),
    ensures
        final(x).state() == process_children(t@, i + 1, old(x).state()),
        c == children_end(t@, i + 1),
    decreases t.len() - i, 0int,
{
    let mut c = i + 1;
    proof {
        lemma_children_end(t@, c as int);
    }
    while is_open_exec(t, c)
        invariant
            i < c <= t.len(),
            process_children(t@, c as int, x.state()) == process_children(t@, i + 1, old(x).state()),
            children_end(t@, c as int) == children_end(t@, i + 1),
        decreases t.len() - c,
    {
        proof {
            lemma_node_end(t@, c as int);
        }
        c = process_node(t, c, x);
    }
    c
}

/// Splits parsed HTML into its skeleton and blocks.
pub fn extract_blocks(t: &[HtmlToken]) -> (r: (String, Vec<String>))
    ensures
        r.0@ == extract_spec(t@).0,
        r.1@.map_values(|b: String| b@) == extract_spec(t@).1,
{
    if !is_open_exec(t, 0) {
        let v: Vec<String> = Vec::new();
        assert(v@.map_values(|b: String| b@) =~= Seq::<Seq<char>>::empty());
        return (String::new(), v);
    }
    let mut x = Extractor { skeleton: Vec::new(), blocks: Vec::new(), acc: Vec::new() };
    assert(x.state().blocks =~= Seq::<Seq<char>>::empty());
    assert(x.state() == extraction_start());
    process_children_exec(t, 0, &mut x);
    flush_acc(&mut x);
    let skeleton = from_chars(&trim_chars(&x.skeleton));
    let mut blocks: Vec<String> = Vec::new();
    let mut i: usize = 0;
    while i < x.blocks.len()
        invariant
            i <= x.blocks.len(),
            blocks@.map_values(|b: String| b@) =~= x.blocks@.take(i as int).map_values(|b: Vec<char>| b@),
        decreases x.blocks.len() - i,
    {
        blocks.push(from_chars(&x.blocks[i]));
        assert(x.blocks@.take(i + 1).map_values(|b: Vec<char>| b@) =~= x.blocks@.take(i as int).map_values(
            |b: Vec<char>| b@,
        ).push(x.blocks@[i as int]@));
        i += 1;
    }
    assert(x.blocks@.take(x.blocks.len() as int) =~= x.blocks@);
    (skeleton, blocks)
}

/// Parses an article's HTML and splits it into a skeleton, where
/// `[[TEXT_n]]` stands for block `n`, and the blocks.
pub fn extract_blocks_from_html(raw_html: &str) -> (r: (String, Vec<String>))
    ensures
        r.0@ == extract_spec(html_fragment_tokens(raw_html@)).0,
        r.1@.map_values(|b: String| b@) == extract_spec(html_fragment_tokens(raw_html@)).1,
{
    let tokens = parse_fragment_tokens(raw_html);
    extract_blocks(&tokens)
}

} // verus!
