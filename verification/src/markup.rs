//! What the parsers read of a page: its elements of one kind, each with one
//! attribute, its first text and the first text of one nested element.

use vstd::prelude::*;
use crate::errors::ParseError;
use scraper::Html;
use scraper::Selector;

verus! {

/// One element of a page, reduced to what the parsers look at.
#[derive(Clone, Debug, PartialEq, Eq)]
pub struct Block {
    /// The value of the attribute asked for, if the element has it.
    pub attr: Option<String>,
    /// The first text node beneath the element, if there is one.
    pub text: Option<String>,
    /// `None` if no nested element of the kind asked for lies beneath the
    /// element; else the first text node beneath the first such element.
    pub nested: Option<Option<String>>,
}

/// A [`Block`] with its texts as character sequences.
pub struct BlockView {
    pub attr: Option<Seq<char>>,
    pub text: Option<Seq<char>>,
    pub nested: Option<Option<Seq<char>>>,
}

/// The characters of an optional string.
pub open spec fn opt_text(s: Option<String>) -> Option<Seq<char>> {
    match s {
        Some(t) => Some(t@),
        None => None,
    }
}

impl View for Block {
    type V = BlockView;

    open spec fn view(&self) -> BlockView {
        BlockView {
            attr: opt_text(self.attr),
            text: opt_text(self.text),
            nested: match self.nested {
                Some(inner) => Some(opt_text(inner)),
                None => None,
            },
        }
    }
}

/// The views of a run of blocks.
pub open spec fn block_views(blocks: Seq<Block>) -> Seq<BlockView> {
    blocks.map_values(|b: Block| b@)
}

/// What an HTML parser makes of `page` when asked for the elements that the
/// selector `tag` matches, the attribute `attr` of each, and the first element
/// beneath each that the selector `nested_tag` matches. `None` where one of
/// the two selectors is not valid.
pub uninterp spec fn selected_blocks(
    page: Seq<char>,
    tag: Seq<char>,
    attr: Seq<char>,
    nested_tag: Seq<char>,
) -> Option<Seq<BlockView>>;

/// Parses `page` with `scraper::Html::parse_document` and walks the elements
/// that `Html::select` yields for the selector `tag`. Of each it records the
/// attribute `attr` (`Element::attr`), the first item of `ElementRef::text`,
/// and, for the first element that `ElementRef::select` yields for
/// `nested_tag`, the first item of its `text`. `None` is returned where
/// `Selector::parse` rejects `tag` or `nested_tag`. Parsing is trusted to
/// depend on the four arguments alone; proofs know the outcome only under the
/// name [`selected_blocks`].
#[verifier::external_body]
fn select_blocks(page: &str, tag: &str, attr: &str, nested_tag: &str) -> (r: Option<
    Vec<Block>,
>)
    ensures
        match r {
            Some(blocks) => selected_blocks(page@, tag@, attr@, nested_tag@) == Some(
                block_views(blocks@),
            ),
            None => selected_blocks(page@, tag@, attr@, nested_tag@) is None,
        },
{
    let outer = Selector::parse(tag).ok()?;
    let inner = Selector::parse(nested_tag).ok()?;
    let document = Html::parse_document(page);
    let blocks = document.select(&outer).map(|e| Block {
        attr: e.value().attr(attr).map(String::from),
        text: e.text().next().map(String::from),
        nested: e.select(&inner).next().map(|n| n.text().next().map(String::from)),
    });
    Some(blocks.collect())
}

/// The blocks of `page`: the elements that the selector `tag` matches, each
/// with its attribute `attr`, its first text, and the first text of the first
/// element beneath it that the selector `nested_tag` matches. Fails where one
/// of the two selectors is not valid.
pub fn read_blocks(page: &str, tag: &str, attr: &str, nested_tag: &str) -> (r: Result<
    Vec<Block>,
    ParseError,
>)
    ensures
        match r {
            Ok(blocks) => selected_blocks(page@, tag@, attr@, nested_tag@) == Some(
                block_views(blocks@),
            ),
            Err(e) => e is InvalidSelector && selected_blocks(page@, tag@, attr@, nested_tag@)
                is None,
        },
{
    match select_blocks(page, tag, attr, nested_tag) {
        Some(blocks) => Ok(blocks),
        None => Err(ParseError::InvalidSelector),
    }
}

/// The blocks whose attribute is exactly `value`, in their order.
pub open spec fn with_attr(blocks: Seq<BlockView>, value: Seq<char>) -> Seq<BlockView> {
    blocks.filter(|b: BlockView| b.attr == Some(value))
}

/// Whether the attribute of `block` is exactly `value`.
pub fn has_attr(block: &Block, value: &String) -> (r: bool)
    ensures
        r == (block@.attr == Some(value@)),
{
    match &block.attr {
        Some(found) => *found == *value,
        None => false,
    }
}

/// The blocks whose attribute is exactly `value`, in their order.
pub fn blocks_with_attr<'a>(blocks: &'a Vec<Block>, value: &str) -> (r: Vec<&'a Block>)
    ensures
        r@.map_values(|b: &Block| b@) == with_attr(block_views(blocks@), value@),
{
    let wanted = String::from_str(value);
    let mut found: Vec<&Block> = Vec::new();
    let mut i: usize = 0;
    while i < blocks.len()
        invariant
            i <= blocks.len(),
            wanted@ == value@,
            found@.map_values(|b: &Block| b@) == with_attr(
                block_views(blocks@).take(i as int),
                value@,
            ),
        decreases blocks.len() - i,
    {
        proof {
            reveal(Seq::filter);
            assert(block_views(blocks@).take(i + 1).drop_last() == block_views(blocks@).take(
                i as int,
            ));
        }
        if has_attr(&blocks[i], &wanted) {
            found.push(&blocks[i]);
        }
        i += 1;
    }
    proof {
        assert(block_views(blocks@).take(blocks@.len() as int) == block_views(blocks@));
    }
    found
}

} // verus!
