//! Field values as the forms hold them: enum names, booleans, numbers and
//! optional strings, each read and written with an exact specification.
use vstd::prelude::*;

use crate::model::{Align, HeroMode, ImagePosition, SocialMode, SocialNetwork, Thumbnails};
use crate::text::{decimal, owned, str_eq, trim, trim_end_seq, trim_seq, trim_start_seq, usize_to_decimal};

verus! {

/// Why a form could not be written back.
#[derive(Debug)]
pub enum FormError {
    /// The selected row no longer addresses anything.
    MissingNode,
    /// A boolean field held something other than `true` / `false`.
    NotBool(String),
    InvalidAlign(String),
    InvalidHeroMode(String),
    InvalidSocialMode(String),
    InvalidImagePosition(String),
    InvalidThumbnails(String),
    InvalidSocialNetwork(String),
    /// The brand content width is not a `u32`.
    ContentWidthNotNumber,
}

/// The view of a [`FormError`].
pub enum SpecFormError {
    MissingNode,
    NotBool(Seq<char>),
    InvalidAlign(Seq<char>),
    InvalidHeroMode(Seq<char>),
    InvalidSocialMode(Seq<char>),
    InvalidImagePosition(Seq<char>),
    InvalidThumbnails(Seq<char>),
    InvalidSocialNetwork(Seq<char>),
    ContentWidthNotNumber,
}

impl View for FormError {
    type V = SpecFormError;

    open spec fn view(&self) -> SpecFormError {
        match self {
            FormError::MissingNode => SpecFormError::MissingNode,
            FormError::NotBool(s) => SpecFormError::NotBool(s@),
            FormError::InvalidAlign(s) => SpecFormError::InvalidAlign(s@),
            FormError::InvalidHeroMode(s) => SpecFormError::InvalidHeroMode(s@),
            FormError::InvalidSocialMode(s) => SpecFormError::InvalidSocialMode(s@),
            FormError::InvalidImagePosition(s) => SpecFormError::InvalidImagePosition(s@),
            FormError::InvalidThumbnails(s) => SpecFormError::InvalidThumbnails(s@),
            FormError::InvalidSocialNetwork(s) => SpecFormError::InvalidSocialNetwork(s@),
            FormError::ContentWidthNotNumber => SpecFormError::ContentWidthNotNumber,
        }
    }
}

/// The message shown for an error.
pub open spec fn form_error_message(e: SpecFormError) -> Seq<char> {
    match e {
        SpecFormError::MissingNode => "missing node"@,
        SpecFormError::NotBool(s) => "expected true/false, got "@ + s,
        SpecFormError::InvalidAlign(s) => "invalid align: "@ + s,
        SpecFormError::InvalidHeroMode(s) => "invalid hero mode: "@ + s,
        SpecFormError::InvalidSocialMode(s) => "invalid social mode: "@ + s,
        SpecFormError::InvalidImagePosition(s) => "invalid image_position: "@ + s,
        SpecFormError::InvalidThumbnails(s) => "invalid thumbnails: "@ + s,
        SpecFormError::InvalidSocialNetwork(s) => "invalid social network: "@ + s,
        SpecFormError::ContentWidthNotNumber => "content_width must be a number"@,
    }
}

impl FormError {
    /// The message shown for this error.
    pub fn message(&self) -> (r: String)
        ensures
            r@ == form_error_message(self@),
    {
        match self {
            FormError::MissingNode => owned("missing node"),
            FormError::NotBool(s) => owned("expected true/false, got ").concat(s.as_str()),
            FormError::InvalidAlign(s) => owned("invalid align: ").concat(s.as_str()),
            FormError::InvalidHeroMode(s) => owned("invalid hero mode: ").concat(s.as_str()),
            FormError::InvalidSocialMode(s) => owned("invalid social mode: ").concat(s.as_str()),
            FormError::InvalidImagePosition(s) => owned("invalid image_position: ").concat(s.as_str()),
            FormError::InvalidThumbnails(s) => owned("invalid thumbnails: ").concat(s.as_str()),
            FormError::InvalidSocialNetwork(s) => owned("invalid social network: ").concat(s.as_str()),
            FormError::ContentWidthNotNumber => owned("content_width must be a number"),
        }
    }
}

/// How a form field shows a boolean.
pub open spec fn bool_view(v: bool) -> Seq<char> {
    if v { "true"@ } else { "false"@ }
}

/// How a form field shows an optional alignment (`""` for none).
pub open spec fn align_view(a: Option<Align>) -> Seq<char> {
    match a {
        Some(Align::Left) => "left"@,
        Some(Align::Center) => "center"@,
        Some(Align::Right) => "right"@,
        None => ""@,
    }
}

/// How a form field shows a hero mode.
pub open spec fn hero_mode_view(m: HeroMode) -> Seq<char> {
    match m {
        HeroMode::FluidHeight => "fluid-height"@,
        HeroMode::FixedHeight => "fixed-height"@,
    }
}

/// How a form field shows a social mode.
pub open spec fn social_mode_view(m: SocialMode) -> Seq<char> {
    match m {
        SocialMode::Horizontal => "horizontal"@,
        SocialMode::Vertical => "vertical"@,
    }
}

/// How a form field shows an image position.
pub open spec fn image_pos_view(p: ImagePosition) -> Seq<char> {
    match p {
        ImagePosition::Top => "top"@,
        ImagePosition::Left => "left"@,
        ImagePosition::Right => "right"@,
    }
}

/// How a form field shows a thumbnails mode.
pub open spec fn thumbnails_view(t: Thumbnails) -> Seq<char> {
    match t {
        Thumbnails::Visible => "visible"@,
        Thumbnails::Hidden => "hidden"@,
        Thumbnails::Supported => "supported"@,
    }
}

/// How a form field shows a social network.
pub open spec fn social_net_view(n: SocialNetwork) -> Seq<char> {
    match n {
        SocialNetwork::Facebook => "facebook"@,
        SocialNetwork::Instagram => "instagram"@,
        SocialNetwork::Linkedin => "linkedin"@,
        SocialNetwork::X => "x"@,
        SocialNetwork::Github => "github"@,
        SocialNetwork::Web => "web"@,
    }
}

/// Reading a boolean field (surrounding whitespace ignored).
pub open spec fn parse_bool_view(s: Seq<char>) -> Result<bool, SpecFormError> {
    let t = trim_seq(s);
    if t == "true"@ {
        Ok(true)
    } else if t == "false"@ {
        Ok(false)
    } else {
        Err(SpecFormError::NotBool(t))
    }
}

/// Reading an alignment field (`""` is none).
pub open spec fn parse_align_view(s: Seq<char>) -> Result<Option<Align>, SpecFormError> {
    let t = trim_seq(s);
    if t == ""@ {
        Ok(None)
    } else if t == "left"@ {
        Ok(Some(Align::Left))
    } else if t == "center"@ {
        Ok(Some(Align::Center))
    } else if t == "right"@ {
        Ok(Some(Align::Right))
    } else {
        Err(SpecFormError::InvalidAlign(t))
    }
}

/// Reading a hero mode field.
pub open spec fn parse_hero_mode_view(s: Seq<char>) -> Result<HeroMode, SpecFormError> {
    let t = trim_seq(s);
    if t == "fluid-height"@ {
        Ok(HeroMode::FluidHeight)
    } else if t == "fixed-height"@ {
        Ok(HeroMode::FixedHeight)
    } else {
        Err(SpecFormError::InvalidHeroMode(t))
    }
}

/// Reading a social mode field.
pub open spec fn parse_social_mode_view(s: Seq<char>) -> Result<SocialMode, SpecFormError> {
    let t = trim_seq(s);
    if t == "horizontal"@ {
        Ok(SocialMode::Horizontal)
    } else if t == "vertical"@ {
        Ok(SocialMode::Vertical)
    } else {
        Err(SpecFormError::InvalidSocialMode(t))
    }
}

/// Reading an image position field.
pub open spec fn parse_image_pos_view(s: Seq<char>) -> Result<ImagePosition, SpecFormError> {
    let t = trim_seq(s);
    if t == "top"@ {
        Ok(ImagePosition::Top)
    } else if t == "left"@ {
        Ok(ImagePosition::Left)
    } else if t == "right"@ {
        Ok(ImagePosition::Right)
    } else {
        Err(SpecFormError::InvalidImagePosition(t))
    }
}

/// Reading a thumbnails field.
pub open spec fn parse_thumbnails_view(s: Seq<char>) -> Result<Thumbnails, SpecFormError> {
    let t = trim_seq(s);
    if t == "visible"@ {
        Ok(Thumbnails::Visible)
    } else if t == "hidden"@ {
        Ok(Thumbnails::Hidden)
    } else if t == "supported"@ {
        Ok(Thumbnails::Supported)
    } else {
        Err(SpecFormError::InvalidThumbnails(t))
    }
}

/// Reading a social network field.
pub open spec fn parse_social_net_view(s: Seq<char>) -> Result<SocialNetwork, SpecFormError> {
    let t = trim_seq(s);
    if t == "facebook"@ {
        Ok(SocialNetwork::Facebook)
    } else if t == "instagram"@ {
        Ok(SocialNetwork::Instagram)
    } else if t == "linkedin"@ {
        Ok(SocialNetwork::Linkedin)
    } else if t == "x"@ {
        Ok(SocialNetwork::X)
    } else if t == "github"@ {
        Ok(SocialNetwork::Github)
    } else if t == "web"@ {
        Ok(SocialNetwork::Web)
    } else {
        Err(SpecFormError::InvalidSocialNetwork(t))
    }
}

/// An optional field read back: trimmed, and absent when blank.
pub open spec fn opt_set_view(s: Seq<char>) -> Option<Seq<char>> {
    if trim_seq(s).len() == 0 {
        None
    } else {
        Some(trim_seq(s))
    }
}

/// An optional value shown in a field (`""` when absent).
pub open spec fn opt_get_view(o: Option<Seq<char>>) -> Seq<char> {
    match o {
        Some(s) => s,
        None => Seq::empty(),
    }
}

/// The value of an ASCII digit.
pub open spec fn digit_value(c: char) -> nat {
    ((c as u32) - 48) as nat
}

/// Whether `c` is an ASCII digit.
pub open spec fn is_digit(c: char) -> bool {
    '0' <= c <= '9'
}

/// The number written by the decimal digits `ds`.
pub open spec fn dec_value(ds: Seq<char>) -> nat
    decreases ds.len(),
{
    if ds.len() == 0 {
        0
    } else {
        dec_value(ds.drop_last()) * 10 + digit_value(ds.last())
    }
}

/// The digits part of a number: a single leading `+` is allowed.
pub open spec fn unsigned_digits(s: Seq<char>) -> Seq<char> {
    if s.len() > 0 && s[0] == '+' {
        s.drop_first()
    } else {
        s
    }
}

/// Reading a `u32` the way `str::parse::<u32>` does.
pub open spec fn parse_u32_view(s: Seq<char>) -> Option<u32> {
    let ds = unsigned_digits(s);
    if ds.len() > 0 && (forall|i: int| 0 <= i < ds.len() ==> is_digit(#[trigger] ds[i])) && dec_value(ds)
        <= u32::MAX {
        Some(dec_value(ds) as u32)
    } else {
        None
    }
}

/// The field text for a boolean.
pub fn bool_str(v: bool) -> (r: &'static str)
    ensures
        r@ == bool_view(v),
{
    if v { "true" } else { "false" }
}

/// Reads a boolean field.
pub fn parse_bool(s: &str) -> (r: Result<bool, FormError>)
    ensures
        match (r, parse_bool_view(s@)) {
            (Ok(a), Ok(b)) => a == b,
            (Err(e), Err(f)) => e@ == f,
            _ => false,
        },
{
    let t = trim(s);
    if str_eq(t, "true") {
        Ok(true)
    } else if str_eq(t, "false") {
        Ok(false)
    } else {
        Err(FormError::NotBool(owned(t)))
    }
}

/// The field text for an optional alignment.
pub fn align_str(a: Option<Align>) -> (r: &'static str)
    ensures
        r@ == align_view(a),
{
    match a {
        Some(Align::Left) => "left",
        Some(Align::Center) => "center",
        Some(Align::Right) => "right",
        None => "",
    }
}

/// Reads an alignment field.
pub fn parse_align(s: &str) -> (r: Result<Option<Align>, FormError>)
    ensures
        match (r, parse_align_view(s@)) {
            (Ok(a), Ok(b)) => a == b,
            (Err(e), Err(f)) => e@ == f,
            _ => false,
        },
{
    let t = trim(s);
    if str_eq(t, "") {
        Ok(None)
    } else if str_eq(t, "left") {
        Ok(Some(Align::Left))
    } else if str_eq(t, "center") {
        Ok(Some(Align::Center))
    } else if str_eq(t, "right") {
        Ok(Some(Align::Right))
    } else {
        Err(FormError::InvalidAlign(owned(t)))
    }
}

/// The field text for a hero mode.
pub fn hero_mode_str(m: HeroMode) -> (r: &'static str)
    ensures
        r@ == hero_mode_view(m),
{
    match m {
        HeroMode::FluidHeight => "fluid-height",
        HeroMode::FixedHeight => "fixed-height",
    }
}

/// Reads a hero mode field.
pub fn parse_hero_mode(s: &str) -> (r: Result<HeroMode, FormError>)
    ensures
        match (r, parse_hero_mode_view(s@)) {
            (Ok(a), Ok(b)) => a == b,
            (Err(e), Err(f)) => e@ == f,
            _ => false,
        },
{
    let t = trim(s);
    if str_eq(t, "fluid-height") {
        Ok(HeroMode::FluidHeight)
    } else if str_eq(t, "fixed-height") {
        Ok(HeroMode::FixedHeight)
    } else {
        Err(FormError::InvalidHeroMode(owned(t)))
    }
}

/// The field text for a social mode.
pub fn social_mode_str(m: SocialMode) -> (r: &'static str)
    ensures
        r@ == social_mode_view(m),
{
    match m {
        SocialMode::Horizontal => "horizontal",
        SocialMode::Vertical => "vertical",
    }
}

/// Reads a social mode field.
pub fn parse_social_mode(s: &str) -> (r: Result<SocialMode, FormError>)
    ensures
        match (r, parse_social_mode_view(s@)) {
            (Ok(a), Ok(b)) => a == b,
            (Err(e), Err(f)) => e@ == f,
            _ => false,
        },
{
    let t = trim(s);
    if str_eq(t, "horizontal") {
        Ok(SocialMode::Horizontal)
    } else if str_eq(t, "vertical") {
        Ok(SocialMode::Vertical)
    } else {
        Err(FormError::InvalidSocialMode(owned(t)))
    }
}

/// The field text for an image position.
pub fn image_pos_str(p: ImagePosition) -> (r: &'static str)
    ensures
        r@ == image_pos_view(p),
{
    match p {
        ImagePosition::Top => "top",
        ImagePosition::Left => "left",
        ImagePosition::Right => "right",
    }
}

/// Reads an image position field.
pub fn parse_image_pos(s: &str) -> (r: Result<ImagePosition, FormError>)
    ensures
        match (r, parse_image_pos_view(s@)) {
            (Ok(a), Ok(b)) => a == b,
            (Err(e), Err(f)) => e@ == f,
            _ => false,
        },
{
    let t = trim(s);
    if str_eq(t, "top") {
        Ok(ImagePosition::Top)
    } else if str_eq(t, "left") {
        Ok(ImagePosition::Left)
    } else if str_eq(t, "right") {
        Ok(ImagePosition::Right)
    } else {
        Err(FormError::InvalidImagePosition(owned(t)))
    }
}

/// The field text for a thumbnails mode.
pub fn thumbnails_str(t: Thumbnails) -> (r: &'static str)
    ensures
        r@ == thumbnails_view(t),
{
    match t {
        Thumbnails::Visible => "visible",
        Thumbnails::Hidden => "hidden",
        Thumbnails::Supported => "supported",
    }
}

/// Reads a thumbnails field.
pub fn parse_thumbnails(s: &str) -> (r: Result<Thumbnails, FormError>)
    ensures
        match (r, parse_thumbnails_view(s@)) {
            (Ok(a), Ok(b)) => a == b,
            (Err(e), Err(f)) => e@ == f,
            _ => false,
        },
{
    let t = trim(s);
    if str_eq(t, "visible") {
        Ok(Thumbnails::Visible)
    } else if str_eq(t, "hidden") {
        Ok(Thumbnails::Hidden)
    } else if str_eq(t, "supported") {
        Ok(Thumbnails::Supported)
    } else {
        Err(FormError::InvalidThumbnails(owned(t)))
    }
}

/// The field text for a social network.
pub fn social_net_str(n: SocialNetwork) -> (r: &'static str)
    ensures
        r@ == social_net_view(n),
{
    match n {
        SocialNetwork::Facebook => "facebook",
        SocialNetwork::Instagram => "instagram",
        SocialNetwork::Linkedin => "linkedin",
        SocialNetwork::X => "x",
        SocialNetwork::Github => "github",
        SocialNetwork::Web => "web",
    }
}

/// Reads a social network field.
pub fn parse_social_net(s: &str) -> (r: Result<SocialNetwork, FormError>)
    ensures
        match (r, parse_social_net_view(s@)) {
            (Ok(a), Ok(b)) => a == b,
            (Err(e), Err(f)) => e@ == f,
            _ => false,
        },
{
    let t = trim(s);
    if str_eq(t, "facebook") {
        Ok(SocialNetwork::Facebook)
    } else if str_eq(t, "instagram") {
        Ok(SocialNetwork::Instagram)
    } else if str_eq(t, "linkedin") {
        Ok(SocialNetwork::Linkedin)
    } else if str_eq(t, "x") {
        Ok(SocialNetwork::X)
    } else if str_eq(t, "github") {
        Ok(SocialNetwork::Github)
    } else if str_eq(t, "web") {
        Ok(SocialNetwork::Web)
    } else {
        Err(FormError::InvalidSocialNetwork(owned(t)))
    }
}

/// An optional value as field text (`""` when absent).
pub fn opt_get(v: &Option<String>) -> (r: String)
    ensures
        r@ == opt_get_view(crate::model::opt_view(*v)),
{
    match v {
        Some(s) => s.clone(),
        None => String::new(),
    }
}

/// Field text read back as an optional value: trimmed, absent when blank.
pub fn opt_from(s: &str) -> (r: Option<String>)
    ensures
        crate::model::opt_view(r) == opt_set_view(s@),
{
    let t = trim(s);
    if t.unicode_len() == 0 {
        None
    } else {
        Some(owned(t))
    }
}

/// Reads a `u32` the way `str::parse::<u32>` does.
pub fn parse_u32(s: &str) -> (r: Option<u32>)
    ensures
        r == parse_u32_view(s@),
{
    let cs = crate::text::chars_of(s);
    let mut start: usize = 0;
    if cs.len() > 0 && cs[0] == '+' {
        start = 1;
    }
    let ghost ds = unsigned_digits(s@);
    assert(ds =~= s@.skip(start as int));
    if start >= cs.len() {
        return None;
    }
    let mut acc: u64 = 0;
    let mut over = false;
    let mut i: usize = start;
    while i < cs.len()
        invariant
            start <= i <= cs@.len(),
            cs@ == s@,
            ds == s@.skip(start as int),
            ds == unsigned_digits(s@),
            forall|k: int| 0 <= k < i - start ==> is_digit(#[trigger] ds[k]),
            !over ==> acc == dec_value(ds.take(i - start)) && acc <= u32::MAX,
            over ==> dec_value(ds.take(i - start)) > u32::MAX,
        decreases cs@.len() - i,
    {
        let c = cs[i];
        if c < '0' || c > '9' {
            assert(ds[i - start] == c);
            assert(!is_digit(ds[i - start]));
            return None;
        }
        assert(ds.take(i - start + 1).drop_last() =~= ds.take(i - start));
        assert(ds.take(i - start + 1).last() == c);
        if !over {
            let d = (c as u32 - 48) as u64;
            let next = acc * 10 + d;
            if next > 4294967295 {
                over = true;
            } else {
                acc = next;
            }
        }
        i = i + 1;
    }
    assert(ds.take(ds.len() as int) =~= ds);
    if over {
        None
    } else {
        Some(acc as u32)
    }
}

/// The decimal text of a `u32`, as `to_string` writes it.
pub fn u32_text(n: u32) -> (r: String)
    ensures
        r@ == decimal(n as nat),
{
    usize_to_decimal(n as usize)
}

/// Reading back the text a boolean is shown as gives the boolean.
pub proof fn law_bool_round_trip(v: bool)
    ensures
        parse_bool_view(bool_view(v)) == Ok::<bool, SpecFormError>(v),
{
    reveal_strlit("true");
    reveal_strlit("false");
    assert(trim_start_seq("true"@) == "true"@);
    assert(trim_end_seq("true"@) == "true"@);
    assert(trim_start_seq("false"@) == "false"@);
    assert(trim_end_seq("false"@) == "false"@);
}

/// Reading back the text an alignment is shown as gives the alignment.
pub proof fn law_align_round_trip(a: Option<Align>)
    ensures
        parse_align_view(align_view(a)) == Ok::<Option<Align>, SpecFormError>(a),
{
    reveal_strlit("");
    reveal_strlit("left");
    reveal_strlit("center");
    reveal_strlit("right");
    assert(trim_start_seq("left"@) == "left"@);
    assert(trim_end_seq("left"@) == "left"@);
    assert(trim_start_seq("center"@) == "center"@);
    assert(trim_end_seq("center"@) == "center"@);
    assert(trim_start_seq("right"@) == "right"@);
    assert(trim_end_seq("right"@) == "right"@);
    assert(trim_start_seq(""@) == ""@);
    assert(trim_end_seq(""@) == ""@);
}

/// Reading back the text a hero mode is shown as gives the mode.
pub proof fn law_hero_mode_round_trip(m: HeroMode)
    ensures
        parse_hero_mode_view(hero_mode_view(m)) == Ok::<HeroMode, SpecFormError>(m),
{
    reveal_strlit("fluid-height");
    reveal_strlit("fixed-height");
    assert(trim_start_seq("fluid-height"@) == "fluid-height"@);
    assert(trim_end_seq("fluid-height"@) == "fluid-height"@);
    assert(trim_start_seq("fixed-height"@) == "fixed-height"@);
    assert(trim_end_seq("fixed-height"@) == "fixed-height"@);
    assert(("fixed-height"@)[1] != ("fluid-height"@)[1]);
}

/// Reading back the text a social mode is shown as gives the mode.
pub proof fn law_social_mode_round_trip(m: SocialMode)
    ensures
        parse_social_mode_view(social_mode_view(m)) == Ok::<SocialMode, SpecFormError>(m),
{
    reveal_strlit("horizontal");
    reveal_strlit("vertical");
    assert(trim_start_seq("horizontal"@) == "horizontal"@);
    assert(trim_end_seq("horizontal"@) == "horizontal"@);
    assert(trim_start_seq("vertical"@) == "vertical"@);
    assert(trim_end_seq("vertical"@) == "vertical"@);
}

/// Reading back the text an image position is shown as gives the position.
pub proof fn law_image_pos_round_trip(p: ImagePosition)
    ensures
        parse_image_pos_view(image_pos_view(p)) == Ok::<ImagePosition, SpecFormError>(p),
{
    reveal_strlit("top");
    reveal_strlit("left");
    reveal_strlit("right");
    assert(trim_start_seq("top"@) == "top"@);
    assert(trim_end_seq("top"@) == "top"@);
    assert(trim_start_seq("left"@) == "left"@);
    assert(trim_end_seq("left"@) == "left"@);
    assert(trim_start_seq("right"@) == "right"@);
    assert(trim_end_seq("right"@) == "right"@);
}

/// Reading back the text a thumbnails mode is shown as gives the mode.
pub proof fn law_thumbnails_round_trip(t: Thumbnails)
    ensures
        parse_thumbnails_view(thumbnails_view(t)) == Ok::<Thumbnails, SpecFormError>(t),
{
    reveal_strlit("visible");
    reveal_strlit("hidden");
    reveal_strlit("supported");
    assert(trim_start_seq("visible"@) == "visible"@);
    assert(trim_end_seq("visible"@) == "visible"@);
    assert(trim_start_seq("hidden"@) == "hidden"@);
    assert(trim_end_seq("hidden"@) == "hidden"@);
    assert(trim_start_seq("supported"@) == "supported"@);
    assert(trim_end_seq("supported"@) == "supported"@);
}

/// Reading back the text a social network is shown as gives the network.
pub proof fn law_social_net_round_trip(n: SocialNetwork)
    ensures
        parse_social_net_view(social_net_view(n)) == Ok::<SocialNetwork, SpecFormError>(n),
{
    reveal_strlit("facebook");
    reveal_strlit("instagram");
    reveal_strlit("linkedin");
    reveal_strlit("x");
    reveal_strlit("github");
    reveal_strlit("web");
    assert(trim_start_seq("facebook"@) == "facebook"@);
    assert(trim_end_seq("facebook"@) == "facebook"@);
    assert(trim_start_seq("instagram"@) == "instagram"@);
    assert(trim_end_seq("instagram"@) == "instagram"@);
    assert(trim_start_seq("linkedin"@) == "linkedin"@);
    assert(trim_end_seq("linkedin"@) == "linkedin"@);
    assert(trim_start_seq("x"@) == "x"@);
    assert(trim_end_seq("x"@) == "x"@);
    assert(trim_start_seq("github"@) == "github"@);
    assert(trim_end_seq("github"@) == "github"@);
    assert(trim_start_seq("web"@) == "web"@);
    assert(trim_end_seq("web"@) == "web"@);
}

proof fn lemma_digit_value(d: nat)
    requires
        d < 10,
    ensures
        digit_value(crate::text::digit_char(d)) == d,
        is_digit(crate::text::digit_char(d)),
{
    assert(('0' as u32) == 48);
    assert(('9' as u32) == 57);
}

/// The decimal rendering of a number is all digits, reads back as the
/// number, and has no surrounding whitespace.
proof fn lemma_decimal_digits(n: nat)
    ensures
        decimal(n).len() > 0,
        forall|i: int| 0 <= i < decimal(n).len() ==> is_digit(#[trigger] decimal(n)[i]),
        dec_value(decimal(n)) == n,
    decreases n,
{
    if n < 10 {
        assert(decimal(n) == seq![crate::text::digit_char(n)]);
        assert(decimal(n).drop_last() =~= Seq::<char>::empty());
        lemma_digit_value(n);
        assert(dec_value(Seq::<char>::empty()) == 0);
        assert(dec_value(decimal(n)) == dec_value(decimal(n).drop_last()) * 10 + digit_value(decimal(n).last()));
    } else {
        lemma_decimal_digits(n / 10);
        let d = decimal(n / 10);
        assert(decimal(n) == d.push(crate::text::digit_char(n % 10)));
        assert(decimal(n).drop_last() =~= d);
        lemma_digit_value(n % 10);
        assert forall|i: int| 0 <= i < decimal(n).len() implies is_digit(#[trigger] decimal(n)[i]) by {
            if i < d.len() {
                assert(decimal(n)[i] == d[i]);
            }
        }
        assert(n == (n / 10) * 10 + n % 10) by (nonlinear_arith);
        assert(decimal(n).last() == crate::text::digit_char(n % 10));
        assert(dec_value(decimal(n)) == dec_value(d) * 10 + digit_value(decimal(n).last()));
    }
}

proof fn lemma_digits_untrimmed(s: Seq<char>)
    requires
        s.len() > 0,
        forall|i: int| 0 <= i < s.len() ==> is_digit(#[trigger] s[i]),
    ensures
        trim_seq(s) == s,
{
    assert(is_digit(s[0]));
    assert(is_digit(s.last()));
    assert(trim_start_seq(s) == s);
    assert(trim_end_seq(s) == s);
}

/// A number shown in a field reads back as itself.
pub proof fn law_u32_round_trip(n: u32)
    ensures
        trim_seq(decimal(n as nat)) == decimal(n as nat),
        parse_u32_view(decimal(n as nat)) == Some(n),
{
    lemma_decimal_digits(n as nat);
    lemma_digits_untrimmed(decimal(n as nat));
    assert(decimal(n as nat)[0] != '+') by {
        assert(is_digit(decimal(n as nat)[0]));
    }
}

} // verus!
