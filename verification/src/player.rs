//! Player profiles, and the parser of a player's profile page.
//!
//! A profile page names the player in a `div` of class `nomdujoueur`, whose
//! first text is the full name and whose `span` holds the country code in
//! parentheses. The second `div` of class `contenu_typeinfojoueur` holds the
//! birth year, the first of class `contenu_typeinfojoueur even` the category.

use vstd::prelude::*;
use crate::decimal::decimal_i32;
use crate::decimal::parse_i32;
use crate::errors::ParseError;
use crate::errors::ParseErrorView;
use crate::markup::block_views;
use crate::markup::blocks_with_attr;
use crate::markup::read_blocks;
use crate::markup::selected_blocks;
use crate::markup::with_attr;
use crate::markup::Block;
use crate::markup::BlockView;
use crate::names::family_name;
use crate::names::given_name;
use crate::names::split_name;
use crate::text::chars_of;
use crate::text::same_text;
use crate::text::string_of;
use crate::words::first_token;
use crate::words::first_word;

verus! {

/// The birth year of a profile whose page gave none that could be read.
pub const UNKNOWN_BIRTH_YEAR: i32 = 0;

/// The category a player competes in.
#[derive(Clone, Copy, Debug, PartialEq, Eq, Structural)]
pub enum PlayerCategory {
    Men,
    Women,
    JuniorMale,
    JuniorFemale,
    SeniorMale,
    SeniorFemale,
}

/// What a profile page tells of a player.
#[derive(Clone, Debug, PartialEq, Eq)]
pub struct PlayerProfile {
    pub itsf_id: i32,
    pub first_name: String,
    pub last_name: String,
    pub birth_year: i32,
    pub country_code: String,
    pub category: PlayerCategory,
}

/// A [`PlayerProfile`] with its texts as character sequences.
pub struct PlayerProfileView {
    pub itsf_id: i32,
    pub first_name: Seq<char>,
    pub last_name: Seq<char>,
    pub birth_year: i32,
    pub country_code: Seq<char>,
    pub category: PlayerCategory,
}

impl View for PlayerProfile {
    type V = PlayerProfileView;

    open spec fn view(&self) -> PlayerProfileView {
        PlayerProfileView {
            itsf_id: self.itsf_id,
            first_name: self.first_name@,
            last_name: self.last_name@,
            birth_year: self.birth_year,
            country_code: self.country_code@,
            category: self.category,
        }
    }
}

/// A profile as parsed, with what the parser had to pass over.
#[derive(Clone, Debug, PartialEq, Eq)]
pub struct ParsedPlayer {
    pub profile: PlayerProfile,
    /// The birth year text, where it was no number and the profile carries
    /// [`UNKNOWN_BIRTH_YEAR`] in its place.
    pub unread_birth_year: Option<String>,
}

/// A [`ParsedPlayer`] with its texts as character sequences.
pub struct ParsedPlayerView {
    pub profile: PlayerProfileView,
    pub unread_birth_year: Option<Seq<char>>,
}

impl View for ParsedPlayer {
    type V = ParsedPlayerView;

    open spec fn view(&self) -> ParsedPlayerView {
        ParsedPlayerView {
            profile: self.profile@,
            unread_birth_year: match self.unread_birth_year {
                Some(text) => Some(text@),
                None => None,
            },
        }
    }
}

/// The outcome of parsing a profile, by views.
pub open spec fn outcome_view(r: Result<ParsedPlayer, ParseError>) -> Result<
    ParsedPlayerView,
    ParseErrorView,
> {
    match r {
        Ok(parsed) => Ok(parsed@),
        Err(e) => Err(e@),
    }
}

/// The category that the page's category text stands for.
pub open spec fn category_of(text: Seq<char>) -> Option<PlayerCategory> {
    if text == "MEN"@ {
        Some(PlayerCategory::Men)
    } else if text == "WOMEN"@ {
        Some(PlayerCategory::Women)
    } else if text == "JUNIOR MALE"@ {
        Some(PlayerCategory::JuniorMale)
    } else if text == "JUNIOR FEMALE"@ {
        Some(PlayerCategory::JuniorFemale)
    } else if text == "SENIOR MALE"@ {
        Some(PlayerCategory::SeniorMale)
    } else if text == "SENIOR FEMALE"@ {
        Some(PlayerCategory::SeniorFemale)
    } else {
        None
    }
}

impl PlayerCategory {
    /// The text that a profile page writes for the category.
    pub open spec fn word(self) -> Seq<char> {
        match self {
            PlayerCategory::Men => "MEN"@,
            PlayerCategory::Women => "WOMEN"@,
            PlayerCategory::JuniorMale => "JUNIOR MALE"@,
            PlayerCategory::JuniorFemale => "JUNIOR FEMALE"@,
            PlayerCategory::SeniorMale => "SENIOR MALE"@,
            PlayerCategory::SeniorFemale => "SENIOR FEMALE"@,
        }
    }

    /// The text that a profile page writes for the category: the one text
    /// that [`player_category`] reads as this category.
    pub fn name(&self) -> (r: &'static str)
        ensures
            r@ == self.word(),
            category_of(r@) == Some(*self),
    {
        proof {
            lemma_category_words(*self);
        }
        match self {
            PlayerCategory::Men => "MEN",
            PlayerCategory::Women => "WOMEN",
            PlayerCategory::JuniorMale => "JUNIOR MALE",
            PlayerCategory::JuniorFemale => "JUNIOR FEMALE",
            PlayerCategory::SeniorMale => "SENIOR MALE",
            PlayerCategory::SeniorFemale => "SENIOR FEMALE",
        }
    }
}

/// Each category is read back from its own text, and from no other text.
pub proof fn lemma_category_words(category: PlayerCategory)
    ensures
        category_of(category.word()) == Some(category),
        forall|text: Seq<char>| category_of(text) == Some(category) ==> text == category.word(),
{
    reveal_strlit("MEN");
    reveal_strlit("WOMEN");
    reveal_strlit("JUNIOR MALE");
    reveal_strlit("JUNIOR FEMALE");
    reveal_strlit("SENIOR MALE");
    reveal_strlit("SENIOR FEMALE");
    assert("MEN"@.len() == 3 && "WOMEN"@.len() == 5);
    assert("JUNIOR MALE"@.len() == 11 && "SENIOR MALE"@.len() == 11);
    assert("JUNIOR MALE"@[0] == 'J' && "SENIOR MALE"@[0] == 'S');
    assert("JUNIOR FEMALE"@[0] == 'J' && "SENIOR FEMALE"@[0] == 'S');
}

/// A country code without its parentheses fails the page. Where the name
/// block is there with its name and its country text, and the country text
/// does not open with `(` and close with `)`, no profile is read, whatever
/// else the page holds; the error carries the text, and its description shows
/// the text in quotes.
pub proof fn lemma_country_code_is_hard(itsf_id: i32, blocks: Seq<BlockView>)
    requires
        with_attr(blocks, "nomdujoueur"@).len() > 0,
        with_attr(blocks, "nomdujoueur"@)[0].text is Some,
        with_attr(blocks, "nomdujoueur"@)[0].nested matches Some(Some(text)) && !in_parentheses(
            text,
        ),
    ensures
        ({
            let text = with_attr(blocks, "nomdujoueur"@)[0].nested->0->0;
            &&& player_of(itsf_id, blocks) == Err::<ParsedPlayerView, ParseErrorView>(
                ParseErrorView::MalformedCountryCode(text),
            )
            &&& ParseErrorView::MalformedCountryCode(text).message() == "invalid country code ("@
                + crate::text::debug_quoted(text) + ")"@
        }),
{
}

/// `text` opens with `(` and closes with `)`.
pub open spec fn in_parentheses(text: Seq<char>) -> bool {
    text.len() >= 2 && text.first() == '(' && text.last() == ')'
}

/// The country code in `text`: the first token of what stands between the
/// parentheses, which is empty where nothing but white space stands there.
/// `None` where `text` is not wrapped in parentheses.
pub open spec fn country_code_of(text: Seq<char>) -> Option<Seq<char>> {
    if in_parentheses(text) {
        Some(first_token(text.subrange(1, text.len() - 1)))
    } else {
        None
    }
}

/// The birth year that `text` gives, [`UNKNOWN_BIRTH_YEAR`] where it is no
/// number.
pub open spec fn birth_year_of(text: Seq<char>) -> i32 {
    match decimal_i32(text) {
        Some(year) => year,
        None => UNKNOWN_BIRTH_YEAR,
    }
}

/// What the blocks of a profile page say of the player `itsf_id`. The checks
/// are made in this order, and the first that fails names the error; a birth
/// year that is no number fails nothing.
pub open spec fn player_of(itsf_id: i32, blocks: Seq<BlockView>) -> Result<
    ParsedPlayerView,
    ParseErrorView,
> {
    let names = with_attr(blocks, "nomdujoueur"@);
    let infos = with_attr(blocks, "contenu_typeinfojoueur"@);
    let evens = with_attr(blocks, "contenu_typeinfojoueur even"@);
    if names.len() == 0 {
        Err(ParseErrorView::MissingNameBlock)
    } else if names[0].text is None {
        Err(ParseErrorView::MissingNameText)
    } else if names[0].nested is None {
        Err(ParseErrorView::MissingCountryCode)
    } else if names[0].nested->0 is None {
        Err(ParseErrorView::MissingCountryText)
    } else if country_code_of(names[0].nested->0->0) is None {
        Err(ParseErrorView::MalformedCountryCode(names[0].nested->0->0))
    } else if infos.len() < 2 {
        Err(ParseErrorView::TooFewInfoBlocks(infos.len() as usize))
    } else if evens.len() == 0 {
        Err(ParseErrorView::MissingCategoryBlock)
    } else if evens[0].text is None {
        Err(ParseErrorView::MissingCategoryText)
    } else if category_of(evens[0].text->0) is None {
        Err(ParseErrorView::UnknownCategory(evens[0].text->0))
    } else if infos[1].text is None {
        Err(ParseErrorView::MissingBirthYear)
    } else {
        let full = names[0].text->0;
        let year = infos[1].text->0;
        Ok(
            ParsedPlayerView {
                profile: PlayerProfileView {
                    itsf_id,
                    first_name: given_name(full),
                    last_name: family_name(full),
                    birth_year: birth_year_of(year),
                    country_code: country_code_of(names[0].nested->0->0)->0,
                    category: category_of(evens[0].text->0)->0,
                },
                unread_birth_year: if decimal_i32(year) is None {
                    Some(year)
                } else {
                    None
                },
            },
        )
    }
}

/// The category that the page's category text stands for, `None` for a text
/// outside the vocabulary.
pub fn player_category(text: &str) -> (r: Option<PlayerCategory>)
    ensures
        r == category_of(text@),
{
    if same_text(text, "MEN") {
        Some(PlayerCategory::Men)
    } else if same_text(text, "WOMEN") {
        Some(PlayerCategory::Women)
    } else if same_text(text, "JUNIOR MALE") {
        Some(PlayerCategory::JuniorMale)
    } else if same_text(text, "JUNIOR FEMALE") {
        Some(PlayerCategory::JuniorFemale)
    } else if same_text(text, "SENIOR MALE") {
        Some(PlayerCategory::SeniorMale)
    } else if same_text(text, "SENIOR FEMALE") {
        Some(PlayerCategory::SeniorFemale)
    } else {
        None
    }
}

/// The country code in `text`, `None` where `text` is not wrapped in
/// parentheses.
pub fn country_code(text: &str) -> (r: Option<String>)
    ensures
        match r {
            Some(code) => country_code_of(text@) == Some(code@),
            None => country_code_of(text@) is None,
        },
{
    let chars = chars_of(text);
    let n = chars.len();
    if n < 2 || chars[0] != '(' || chars[n - 1] != ')' {
        return None;
    }
    let code = first_word(&chars, 1, n - 1);
    Some(string_of(&code))
}

/// Reads the profile of the player `itsf_id` from the blocks of its page.
pub fn player_from_blocks(itsf_id: i32, blocks: &Vec<Block>) -> (r: Result<
    ParsedPlayer,
    ParseError,
>)
    ensures
        outcome_view(r) == player_of(itsf_id, block_views(blocks@)),
{
    let names = blocks_with_attr(blocks, "nomdujoueur");
    if names.len() == 0 {
        return Err(ParseError::MissingNameBlock);
    }
    let name_block: &Block = names[0];
    let full = match &name_block.text {
        Some(text) => text,
        None => {
            return Err(ParseError::MissingNameText);
        },
    };
    let name = split_name(full.as_str());
    let span = match &name_block.nested {
        Some(inner) => inner,
        None => {
            return Err(ParseError::MissingCountryCode);
        },
    };
    let wrapped = match span {
        Some(text) => text,
        None => {
            return Err(ParseError::MissingCountryText);
        },
    };
    let code = match country_code(wrapped.as_str()) {
        Some(code) => code,
        None => {
            return Err(ParseError::MalformedCountryCode(wrapped.clone()));
        },
    };
    let infos = blocks_with_attr(blocks, "contenu_typeinfojoueur");
    if infos.len() < 2 {
        return Err(ParseError::TooFewInfoBlocks(infos.len()));
    }
    let evens = blocks_with_attr(blocks, "contenu_typeinfojoueur even");
    if evens.len() == 0 {
        return Err(ParseError::MissingCategoryBlock);
    }
    let category_block: &Block = evens[0];
    let category_text = match &category_block.text {
        Some(text) => text,
        None => {
            return Err(ParseError::MissingCategoryText);
        },
    };
    let category = match player_category(category_text.as_str()) {
        Some(category) => category,
        None => {
            return Err(ParseError::UnknownCategory(category_text.clone()));
        },
    };
    let year_block: &Block = infos[1];
    let year_text = match &year_block.text {
        Some(text) => text,
        None => {
            return Err(ParseError::MissingBirthYear);
        },
    };
    let (birth_year, unread) = match parse_i32(year_text.as_str()) {
        Some(year) => (year, None),
        None => (UNKNOWN_BIRTH_YEAR, Some(year_text.clone())),
    };
    Ok(
        ParsedPlayer {
            profile: PlayerProfile {
                itsf_id,
                first_name: name.given,
                last_name: name.family,
                birth_year,
                country_code: code,
                category,
            },
            unread_birth_year: unread,
        },
    )
}

/// What a profile page says of the player `itsf_id`.
pub open spec fn parsed_player(itsf_id: i32, page: Seq<char>) -> Result<
    ParsedPlayerView,
    ParseErrorView,
> {
    match selected_blocks(page, "div"@, "class"@, "span"@) {
        Some(blocks) => player_of(itsf_id, blocks),
        None => Err(ParseErrorView::InvalidSelector),
    }
}

/// Reads the profile of the player `itsf_id` from the markup of its page.
pub fn parse_player(itsf_id: i32, page: &str) -> (r: Result<ParsedPlayer, ParseError>)
    ensures
        outcome_view(r) == parsed_player(itsf_id, page@),
{
    match read_blocks(page, "div", "class", "span") {
        Ok(blocks) => player_from_blocks(itsf_id, &blocks),
        Err(e) => Err(e),
    }
}

} // verus!
