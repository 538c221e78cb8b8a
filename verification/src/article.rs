//! Articles: the stored rows, the query that lists them, and how an article's
//! HTML is put back together from its skeleton and its translated text blocks.
use vstd::prelude::*;
use crate::num::{dec_spec, i64_to_dec};
use crate::text::{
    extend_chars, extend_str, from_chars, is_blank, lemma_replace_single, replace_chars, to_chars, trim_chars,
    trim_end_spec, trim_spec, trim_start_spec,
};

verus! {

/// A row of the article list.
pub struct ArticleListItem {
    pub id: i64,
    pub title: String,
    pub author: Option<String>,
    pub published_at: Option<i64>,
    pub is_read: bool,
    pub is_starred: bool,
    pub feed_id: i64,
    pub feed_title: Option<String>,
}

/// One article with its skeleton and summary.
pub struct ArticleDetail {
    pub id: i64,
    pub title: String,
    pub link: Option<String>,
    pub author: Option<String>,
    pub published_at: Option<i64>,
    pub content_skeleton: Option<String>,
    pub is_read: bool,
    pub is_starred: bool,
    pub summary: Option<String>,
    pub need_translate: bool,
}

/// The filters of an article listing.
pub struct ListArticlesQuery {
    pub feed_id: Option<i64>,
    pub is_read: Option<bool>,
    pub is_starred: Option<bool>,
}

/// A text block of an article: its original text and, once translated, the
/// translation. Index -1 holds the title; the others fill `[[TEXT_n]]`.
pub struct ArticleBlock {
    pub article_id: i64,
    pub block_index: i32,
    pub raw_text: String,
    pub trans_text: Option<String>,
}

// ---------------------------------------------------------------------------
// Listing
// ---------------------------------------------------------------------------

/// The start of the article list query.
pub open spec fn list_articles_base() -> Seq<char> {
    "\n        SELECT \n            a.id, COALESCE(b.trans_text, a.title) as title, a.author, a.published_at, a.is_read, a.is_starred,\n            a.feed_id, f.title as feed_title\n        FROM articles a\n        JOIN feeds f ON a.feed_id = f.id\n        JOIN subscriptions s ON s.feed_id = f.id\n        LEFT JOIN article_blocks b ON b.article_id = a.id AND b.user_id = s.user_id AND b.block_index = -1\n        WHERE s.user_id = ?\n        "@
}

/// `1` or `0` for a flag.
pub open spec fn flag_digit(b: bool) -> Seq<char> {
    if b {
        seq!['1']
    } else {
        seq!['0']
    }
}

/// The article list query for the optional feed, read and starred filters.
pub open spec fn list_articles_query_spec(
    feed_id: Option<i64>,
    is_read: Option<bool>,
    is_starred: Option<bool>,
) -> Seq<char> {
    list_articles_base() + (match feed_id {
        Some(f) => " AND a.feed_id = "@ + dec_spec(f as int),
        None => Seq::<char>::empty(),
    }) + (match is_read {
        Some(r) => " AND a.is_read = "@ + flag_digit(r),
        None => Seq::<char>::empty(),
    }) + (match is_starred {
        Some(s) => " AND a.is_starred = "@ + flag_digit(s),
        None => Seq::<char>::empty(),
    }) + " ORDER BY a.published_at DESC LIMIT 100"@
}

fn push_flag(v: &mut Vec<char>, b: bool)
    ensures
        final(v)@ == old(v)@ + flag_digit(b),
{
    if b {
        v.push('1');
    } else {
        v.push('0');
    }
}

/// Builds the query that lists a user's articles, newest first, at most 100.
pub fn list_articles_query(
    feed_id: Option<i64>,
    is_read: Option<bool>,
    is_starred: Option<bool>,
) -> (q: String)
    ensures
        q@ == list_articles_query_spec(feed_id, is_read, is_starred),
{
    let mut v = to_chars("\n        SELECT \n            a.id, COALESCE(b.trans_text, a.title) as title, a.author, a.published_at, a.is_read, a.is_starred,\n            a.feed_id, f.title as feed_title\n        FROM articles a\n        JOIN feeds f ON a.feed_id = f.id\n        JOIN subscriptions s ON s.feed_id = f.id\n        LEFT JOIN article_blocks b ON b.article_id = a.id AND b.user_id = s.user_id AND b.block_index = -1\n        WHERE s.user_id = ?\n        ");
    let ghost v0 = v@;
    if let Some(f) = feed_id {
        extend_str(&mut v, " AND a.feed_id = ");
        let d = i64_to_dec(f);
        extend_chars(&mut v, &d);
    }
    let ghost v1 = v@;
    if let Some(r) = is_read {
        extend_str(&mut v, " AND a.is_read = ");
        push_flag(&mut v, r);
    }
    let ghost v2 = v@;
    if let Some(s) = is_starred {
        extend_str(&mut v, " AND a.is_starred = ");
        push_flag(&mut v, s);
    }
    extend_str(&mut v, " ORDER BY a.published_at DESC LIMIT 100");
    assert(v@ =~= list_articles_query_spec(feed_id, is_read, is_starred));
    from_chars(&v)
}

// ---------------------------------------------------------------------------
// Stitching
// ---------------------------------------------------------------------------

/// The placeholder that block `idx` fills: `[[TEXT_idx]]`.
pub open spec fn placeholder(idx: i32) -> Seq<char> {
    "[[TEXT_"@ + dec_spec(idx as int) + "]]"@
}

/// Opens the translation shown under an original text.
pub open spec fn trans_under_open() -> Seq<char> {
    "<br><em style=\"display:block;font-style:italic;opacity:0.6;font-size:0.95em;margin-top:0.25em;padding-left:0.75em;border-left:2px solid #7986CB;\">"@
}

/// Opens a translation shown on its own.
pub open spec fn trans_alone_open() -> Seq<char> {
    "<em style=\"display:block;font-style:italic;opacity:0.8;margin-top:0.25em;padding-left:0.75em;border-left:2px solid #7986CB;\">"@
}

/// Closes a translation.
pub open spec fn trans_close() -> Seq<char> {
    "</em>"@
}

/// Opens the summary box.
pub open spec fn summary_open() -> Seq<char> {
    "<div style=\"background:rgba(34,197,94,0.08);border-left:3px solid #22c55e;padding:1em;margin-bottom:1.5em;border-radius:0 8px 8px 0;line-height:1.7;\">\n                    <strong style=\"color:#22c55e;display:block;margin-bottom:0.5em;font-size:1.1em;\">AI 摘要</strong>\n                    "@
}

/// Closes the summary box.
pub open spec fn summary_close() -> Seq<char> {
    "\n                </div>"@
}

/// What a block's placeholder is replaced with: the trimmed original, and,
/// when translating and a translation exists, the trimmed translation.
pub open spec fn block_replacement(b: ArticleBlock, need_translate: bool) -> Seq<char> {
    let raw = trim_spec(b.raw_text@);
    if need_translate && b.trans_text is Some {
        let tr = trim_spec(b.trans_text->0@);
        if raw.len() == 0 && tr.len() == 0 {
            Seq::<char>::empty()
        } else if raw.len() == 0 {
            trans_alone_open() + tr + trans_close()
        } else {
            raw + trans_under_open() + tr + trans_close()
        }
    } else {
        raw
    }
}

/// One block applied to the content (blocks with a negative index are skipped).
pub open spec fn apply_block(content: Seq<char>, b: ArticleBlock, need_translate: bool) -> Seq<char> {
    if b.block_index < 0 {
        content
    } else {
        crate::text::replace_spec(content, placeholder(b.block_index), block_replacement(b, need_translate))
    }
}

/// The blocks applied one after another, in order.
pub open spec fn stitch_blocks(content: Seq<char>, blocks: Seq<ArticleBlock>, need_translate: bool) -> Seq<char>
    decreases blocks.len(),
{
    if blocks.len() == 0 {
        content
    } else {
        stitch_blocks(apply_block(content, blocks[0], need_translate), blocks.drop_first(), need_translate)
    }
}

/// The article's HTML: the skeleton with every placeholder filled, the summary
/// box in front when there is a non-blank summary, and the summary itself when
/// nothing else is left.
pub open spec fn stitch_spec(
    skeleton: Seq<char>,
    blocks: Seq<ArticleBlock>,
    summary: Option<Seq<char>>,
    need_translate: bool,
) -> Seq<char> {
    let body = stitch_blocks(skeleton, blocks, need_translate);
    let with_summary = match summary {
        Some(s) => if trim_spec(s).len() > 0 {
            summary_open() + s + summary_close() + body
        } else {
            body
        },
        None => body,
    };
    if with_summary.len() == 0 && summary is Some {
        summary->0
    } else {
        with_summary
    }
}

/// Whether a block fills a placeholder of the skeleton (the title block, at
/// index -1, does not).
pub open spec fn fills_placeholder(b: ArticleBlock) -> bool {
    b.block_index >= 0
}

proof fn lemma_stitch_blocks_skip_unindexed(content: Seq<char>, blocks: Seq<ArticleBlock>, need_translate: bool)
    ensures
        stitch_blocks(content, blocks, need_translate) == stitch_blocks(
            content,
            blocks.filter(|b: ArticleBlock| fills_placeholder(b)),
            need_translate,
        ),
    decreases blocks.len(),
{
    let p = |b: ArticleBlock| fills_placeholder(b);
    blocks.lemma_filter_eq_filter_alt(p);
    if blocks.len() > 0 {
        let rest = blocks.drop_first();
        lemma_stitch_blocks_skip_unindexed(apply_block(content, blocks[0], need_translate), rest, need_translate);
        if p(blocks[0]) {
            let s = seq![blocks[0]] + rest.filter(p);
            assert(s[0] == blocks[0]);
            assert(s.drop_first() =~= rest.filter(p));
        }
    }
}

/// A block fills its placeholder: in a skeleton where `[[TEXT_n]]` stands
/// once between text holding no `[`, stitching block `n` (any `n >= 0`) puts
/// the block's text in its place and keeps the rest; without a translation
/// to show, that text is the block's trimmed original.
pub proof fn lemma_placeholder_filled(
    pre: Seq<char>,
    post: Seq<char>,
    b: ArticleBlock,
    need_translate: bool,
)
    requires
        b.block_index >= 0,
        forall|j: int| 0 <= j < pre.len() ==> pre[j] != '[',
        forall|j: int| 0 <= j < post.len() ==> post[j] != '[',
    ensures
        ({
            let skeleton = pre + "[[TEXT_"@ + dec_spec(b.block_index as int) + "]]"@ + post;
            &&& stitch_spec(skeleton, seq![b], None, need_translate) == pre + block_replacement(b, need_translate)
                + post
            &&& (!need_translate || b.trans_text is None) ==> stitch_spec(skeleton, seq![b], None, need_translate)
                == pre + trim_spec(b.raw_text@) + post
        }),
{
    reveal_strlit("[[TEXT_");
    let pat = placeholder(b.block_index);
    assert(pat[0] == '[');
    let skeleton = pre + "[[TEXT_"@ + dec_spec(b.block_index as int) + "]]"@ + post;
    assert(skeleton =~= pre + pat + post);
    lemma_replace_single(pre, pat, post, block_replacement(b, need_translate));
    assert(seq![b].drop_first() =~= Seq::<ArticleBlock>::empty());
    assert(seq![b][0] == b);
    let filled = apply_block(skeleton, b, need_translate);
    assert(stitch_blocks(filled, Seq::<ArticleBlock>::empty(), need_translate) == filled);
    assert(stitch_blocks(skeleton, seq![b], need_translate) == filled);
}

/// With a non-blank summary the article is the summary box (the "AI 摘要"
/// heading, then the summary) followed by the article without the summary;
/// without one it is the filled skeleton alone.
pub proof fn lemma_summary_box_first(
    skeleton: Seq<char>,
    blocks: Seq<ArticleBlock>,
    summary: Seq<char>,
    need_translate: bool,
)
    requires
        trim_spec(summary).len() > 0,
    ensures
        stitch_spec(skeleton, blocks, None, need_translate) == stitch_blocks(skeleton, blocks, need_translate),
        stitch_spec(skeleton, blocks, Some(summary), need_translate) == summary_open() + summary + summary_close()
            + stitch_spec(skeleton, blocks, None, need_translate),
{
    let with = summary_open() + summary + summary_close() + stitch_blocks(skeleton, blocks, need_translate);
    assert(with.len() >= summary.len());
    assert(summary.len() > 0) by {
        if summary.len() == 0 {
            assert(trim_end_spec(summary) == summary);
            assert(trim_start_spec(summary) == summary);
        }
    }
}

/// Blocks with a negative index (the title block) never change an article's
/// content: stitching without them gives the same HTML.
pub proof fn lemma_title_blocks_ignored(
    skeleton: Seq<char>,
    blocks: Seq<ArticleBlock>,
    summary: Option<Seq<char>>,
    need_translate: bool,
)
    ensures
        stitch_spec(skeleton, blocks, summary, need_translate) == stitch_spec(
            skeleton,
            blocks.filter(|b: ArticleBlock| fills_placeholder(b)),
            summary,
            need_translate,
        ),
{
    lemma_stitch_blocks_skip_unindexed(skeleton, blocks, need_translate);
}

/// The replacement text for one block.
fn block_replacement_exec(b: &ArticleBlock, need_translate: bool) -> (r: Vec<char>)
    ensures
        r@ == block_replacement(*b, need_translate),
{
    let raw = trim_chars(&to_chars(b.raw_text.as_str()));
    if need_translate {
        if let Some(t) = &b.trans_text {
            let tr = trim_chars(&to_chars(t.as_str()));
            if raw.len() == 0 && tr.len() == 0 {
                return Vec::new();
            } else if raw.len() == 0 {
                let mut v = to_chars("<em style=\"display:block;font-style:italic;opacity:0.8;margin-top:0.25em;padding-left:0.75em;border-left:2px solid #7986CB;\">");
                extend_chars(&mut v, &tr);
                extend_str(&mut v, "</em>");
                return v;
            } else {
                let mut v = raw;
                extend_str(&mut v, "<br><em style=\"display:block;font-style:italic;opacity:0.6;font-size:0.95em;margin-top:0.25em;padding-left:0.75em;border-left:2px solid #7986CB;\">");
                extend_chars(&mut v, &tr);
                extend_str(&mut v, "</em>");
                return v;
            }
        }
    }
    raw
}

/// Puts the summary box in front of the filled skeleton, or the summary in
/// place of an empty one.
fn finish_stitch(body: Vec<char>, summary: Option<&str>) -> (r: String)
    ensures
        r@ == {
            let with_summary = match summary {
                Some(s) => if trim_spec(s@).len() > 0 {
                    summary_open() + s@ + summary_close() + body@
                } else {
                    body@
                },
                None => body@,
            };
            if with_summary.len() == 0 && summary is Some {
                summary->0@
            } else {
                with_summary
            }
        },
{
    let mut content = body;
    match summary {
        Some(s) => {
            let sv = to_chars(s);
            if !is_blank(&sv) {
                let mut v = to_chars("<div style=\"background:rgba(34,197,94,0.08);border-left:3px solid #22c55e;padding:1em;margin-bottom:1.5em;border-radius:0 8px 8px 0;line-height:1.7;\">\n                    <strong style=\"color:#22c55e;display:block;margin-bottom:0.5em;font-size:1.1em;\">AI 摘要</strong>\n                    ");
                extend_chars(&mut v, &sv);
                extend_str(&mut v, "\n                </div>");
                extend_chars(&mut v, &content);
                content = v;
            }
            if content.len() == 0 {
                content = sv;
            }
        },
        None => {},
    }
    from_chars(&content)
}

/// The placeholder text for a block index.
fn placeholder_exec(idx: i32) -> (r: Vec<char>)
    ensures
        r@ == placeholder(idx),
{
    let mut v = to_chars("[[TEXT_");
    let d = i64_to_dec(idx as i64);
    extend_chars(&mut v, &d);
    extend_str(&mut v, "]]");
    v
}

/// Fills the skeleton's placeholders with the blocks' text (translated where
/// asked), and puts the summary box in front of a non-blank summary.
pub fn stitch_article_content(
    skeleton: &str,
    blocks: &[ArticleBlock],
    summary: Option<&str>,
    need_translate: bool,
) -> (r: String)
    ensures
        r@ == stitch_spec(
            skeleton@,
            blocks@,
            match summary {
                Some(s) => Some(s@),
                None => None,
            },
            need_translate,
        ),
{
    let mut content = to_chars(skeleton);
    let mut i: usize = 0;
    assert(blocks@.skip(0) =~= blocks@);
    while i < blocks.len()
        invariant
            i <= blocks.len(),
            stitch_blocks(content@, blocks@.skip(i as int), need_translate) == stitch_blocks(
                skeleton@,
                blocks@,
                need_translate,
            ),
        decreases blocks.len() - i,
    {
        let b = &blocks[i];
        assert(blocks@.skip(i as int)[0] == blocks@[i as int]);
        assert(blocks@.skip(i as int).drop_first() =~= blocks@.skip(i + 1));
        if b.block_index >= 0 {
            let rep = block_replacement_exec(b, need_translate);
            let pat = placeholder_exec(b.block_index);
            assert(pat@.len() > 0) by {
                assert(pat@ =~= "[[TEXT_"@ + dec_spec(b.block_index as int) + "]]"@);
                reveal_strlit("[[TEXT_");
            }
            content = replace_chars(&content, &pat, &rep);
        }
        i += 1;
    }
    assert(blocks@.skip(blocks.len() as int) =~= Seq::<ArticleBlock>::empty());
    finish_stitch(content, summary)
}

/// The blocks of one article, in order.
pub open spec fn blocks_of(all: Seq<ArticleBlock>, article_id: i64) -> Seq<ArticleBlock>
    decreases all.len(),
{
    if all.len() == 0 {
        all
    } else if all[0].article_id == article_id {
        seq![all[0]] + blocks_of(all.drop_first(), article_id)
    } else {
        blocks_of(all.drop_first(), article_id)
    }
}

/// The first title block (index -1) among `blocks`.
pub open spec fn title_block(blocks: Seq<ArticleBlock>) -> Option<ArticleBlock>
    decreases blocks.len(),
{
    if blocks.len() == 0 {
        None
    } else if blocks[0].block_index == -1 {
        Some(blocks[0])
    } else {
        title_block(blocks.drop_first())
    }
}

/// The title shown for an article: the translation in its title block, if any.
pub open spec fn display_title(title: Seq<char>, blocks: Seq<ArticleBlock>) -> Seq<char> {
    match title_block(blocks) {
        Some(b) => match b.trans_text {
            Some(t) => t@,
            None => title,
        },
        None => title,
    }
}

proof fn lemma_blocks_of_step(all: Seq<ArticleBlock>, i: int, id: i64)
    requires
        0 <= i < all.len(),
    ensures
        all[i].article_id == id ==> blocks_of(all.skip(i), id) == seq![all[i]] + blocks_of(all.skip(i + 1), id),
        all[i].article_id != id ==> blocks_of(all.skip(i), id) == blocks_of(all.skip(i + 1), id),
{
    let rest = all.skip(i);
    assert(rest[0] == all[i]);
    assert(rest.drop_first() =~= all.skip(i + 1));
}

/// The shown title of article `article_id`: the translation in its first title
/// block among `all`, the stored title otherwise.
pub fn title_of(title: &String, all: &[ArticleBlock], article_id: i64) -> (r: String)
    ensures
        r@ == display_title(title@, blocks_of(all@, article_id)),
{
    let mut i: usize = 0;
    assert(all@.skip(0) =~= all@);
    while i < all.len()
        invariant
            i <= all.len(),
            title_block(blocks_of(all@.skip(i as int), article_id)) == title_block(blocks_of(all@, article_id)),
        decreases all.len() - i,
    {
        proof {
            lemma_blocks_of_step(all@, i as int, article_id);
        }
        let b = &all[i];
        if b.article_id == article_id {
            assert((seq![all@[i as int]] + blocks_of(all@.skip(i + 1), article_id))[0] == all@[i as int]);
            if b.block_index == -1 {
                return match &b.trans_text {
                    Some(t) => t.clone(),
                    None => title.clone(),
                };
            }
            assert((seq![all@[i as int]] + blocks_of(all@.skip(i + 1), article_id)).drop_first()
                =~= blocks_of(all@.skip(i + 1), article_id));
        }
        i += 1;
    }
    assert(all@.skip(all.len() as int) =~= Seq::<ArticleBlock>::empty());
    title.clone()
}

/// `stitch_article_content` for article `article_id`, whose blocks are those of
/// `all` that belong to it.
pub fn stitch_article_content_of(
    skeleton: &str,
    all: &[ArticleBlock],
    article_id: i64,
    summary: Option<&str>,
    need_translate: bool,
) -> (r: String)
    ensures
        r@ == stitch_spec(
            skeleton@,
            blocks_of(all@, article_id),
            match summary {
                Some(s) => Some(s@),
                None => None,
            },
            need_translate,
        ),
{
    let mut content = to_chars(skeleton);
    let mut i: usize = 0;
    assert(all@.skip(0) =~= all@);
    while i < all.len()
        invariant
            i <= all.len(),
            stitch_blocks(content@, blocks_of(all@.skip(i as int), article_id), need_translate)
                == stitch_blocks(skeleton@, blocks_of(all@, article_id), need_translate),
        decreases all.len() - i,
    {
        proof {
            lemma_blocks_of_step(all@, i as int, article_id);
        }
        let b = &all[i];
        if b.article_id == article_id {
            let ghost bs = seq![all@[i as int]] + blocks_of(all@.skip(i + 1), article_id);
            assert(bs[0] == all@[i as int]);
            assert(bs.drop_first() =~= blocks_of(all@.skip(i + 1), article_id));
            if b.block_index >= 0 {
                let rep = block_replacement_exec(b, need_translate);
                let pat = placeholder_exec(b.block_index);
                assert(pat@.len() > 0) by {
                    assert(pat@ =~= "[[TEXT_"@ + dec_spec(b.block_index as int) + "]]"@);
                    reveal_strlit("[[TEXT_");
                }
                content = replace_chars(&content, &pat, &rep);
            }
        }
        i += 1;
    }
    assert(all@.skip(all.len() as int) =~= Seq::<ArticleBlock>::empty());
    finish_stitch(content, summary)
}

} // verus!
