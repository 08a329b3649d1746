//! The error type of the client and the validators for caller-supplied
//! values: Ethereum addresses, coin symbols, candle intervals and time
//! ranges. A validator returns `Ok(())` or the error that names the first
//! rule its input breaks, and nothing else: no network, no state.

use vstd::prelude::*;

use crate::text::{
    byte_len, concat2, concat3, decimal_digits, lemma_utf8_len_covers_chars,
    lemma_utf8_len_of_ascii, str_eq, u64_to_decimal, utf8_len,
};

verus! {

/// The error that `reqwest` reports for a request that failed.
#[verifier::external_type_specification]
#[verifier::external_body]
pub struct ExReqwestError(reqwest::Error);

/// The error that `serde_json` reports for text it cannot turn into a value.
#[verifier::external_type_specification]
#[verifier::external_body]
pub struct ExJsonError(serde_json::Error);

/// Everything that can go wrong in the client.
#[derive(Debug)]
pub enum HyperLiquidError {
    /// The HTTP layer failed.
    HttpError(reqwest::Error),
    /// A value that is not one of the accepted ones.
    InvalidInput(String),
    /// The API answered with an error status.
    ApiError { status: u16, message: String },
    /// JSON could not be written or read.
    SerializationError(serde_json::Error),
    /// Not an Ethereum address; the text names the rule that is broken.
    InvalidAddress(String),
    /// Not a coin symbol; the text names the rule that is broken.
    InvalidCoin(String),
    /// A time range that does not start before it ends.
    InvalidTimeRange { start: u64, end: u64 },
    /// The API keeps answering that the caller is rate limited.
    RateLimitExceeded,
    /// A request took longer than the configured timeout.
    Timeout,
}

/// A `HyperLiquidError` with its texts as character sequences.
pub enum HyperLiquidErrorView {
    HttpError(reqwest::Error),
    InvalidInput(Seq<char>),
    ApiError { status: u16, message: Seq<char> },
    SerializationError(serde_json::Error),
    InvalidAddress(Seq<char>),
    InvalidCoin(Seq<char>),
    InvalidTimeRange { start: u64, end: u64 },
    RateLimitExceeded,
    Timeout,
}

impl View for HyperLiquidError {
    type V = HyperLiquidErrorView;

    open spec fn view(&self) -> HyperLiquidErrorView {
        match self {
            HyperLiquidError::HttpError(source) => HyperLiquidErrorView::HttpError(*source),
            HyperLiquidError::InvalidInput(text) => HyperLiquidErrorView::InvalidInput(text@),
            HyperLiquidError::ApiError { status, message } => HyperLiquidErrorView::ApiError {
                status: *status,
                message: message@,
            },
            HyperLiquidError::SerializationError(source) => {
                HyperLiquidErrorView::SerializationError(*source)
            },
            HyperLiquidError::InvalidAddress(text) => HyperLiquidErrorView::InvalidAddress(text@),
            HyperLiquidError::InvalidCoin(text) => HyperLiquidErrorView::InvalidCoin(text@),
            HyperLiquidError::InvalidTimeRange { start, end } => {
                HyperLiquidErrorView::InvalidTimeRange { start: *start, end: *end }
            },
            HyperLiquidError::RateLimitExceeded => HyperLiquidErrorView::RateLimitExceeded,
            HyperLiquidError::Timeout => HyperLiquidErrorView::Timeout,
        }
    }
}

impl HyperLiquidErrorView {
    /// The words that open the message of each kind of error. For the two
    /// kinds that wrap an error of another crate, that error's own text
    /// follows; for the rest, `message` says what follows.
    pub open spec fn heading(self) -> Seq<char> {
        match self {
            HyperLiquidErrorView::HttpError(_) => "HTTP request failed: "@,
            HyperLiquidErrorView::InvalidInput(_) => "Invalid input: "@,
            HyperLiquidErrorView::ApiError { .. } => "API error: "@,
            HyperLiquidErrorView::SerializationError(_) => "Serialization error: "@,
            HyperLiquidErrorView::InvalidAddress(_) => "Invalid Ethereum address: "@,
            HyperLiquidErrorView::InvalidCoin(_) => "Invalid coin symbol: "@,
            HyperLiquidErrorView::InvalidTimeRange { .. } => "Invalid time range: "@,
            HyperLiquidErrorView::RateLimitExceeded => "Rate limit exceeded"@,
            HyperLiquidErrorView::Timeout => "Timeout occurred"@,
        }
    }

    /// The error wraps an error of another crate.
    pub open spec fn wraps_source(self) -> bool {
        self is HttpError || self is SerializationError
    }

    /// The whole message of an error that wraps no error of another crate.
    pub open spec fn message(self) -> Seq<char> {
        match self {
            HyperLiquidErrorView::InvalidInput(text) => self.heading() + text,
            HyperLiquidErrorView::ApiError { status, message } => self.heading() + decimal_digits(
                status as nat,
            ) + " - "@ + message,
            HyperLiquidErrorView::InvalidAddress(text) => self.heading() + text,
            HyperLiquidErrorView::InvalidCoin(text) => self.heading() + text,
            HyperLiquidErrorView::InvalidTimeRange { start, end } => self.heading()
                + "start_time ("@ + decimal_digits(start as nat)
                + ") must be less than end_time ("@ + decimal_digits(end as nat) + ")"@,
            _ => self.heading(),
        }
    }
}

/// `text` begins with `opening`.
pub open spec fn starts_with(text: Seq<char>, opening: Seq<char>) -> bool {
    opening.len() <= text.len() && text.subrange(0, opening.len() as int) == opening
}

/// Formats a `reqwest::Error` with its `Display` impl. Nothing is claimed
/// of the text.
#[verifier::external_body]
fn http_error_text(source: &reqwest::Error) -> String {
    source.to_string()
}

/// Formats a `serde_json::Error` with its `Display` impl. Nothing is
/// claimed of the text.
#[verifier::external_body]
fn json_error_text(source: &serde_json::Error) -> String {
    source.to_string()
}

impl HyperLiquidError {
    /// The message of the error.
    pub fn to_string(&self) -> (text: String)
        ensures
            starts_with(text@, self@.heading()),
            !self@.wraps_source() ==> text@ == self@.message(),
    {
        let text = match self {
            HyperLiquidError::HttpError(source) => {
                let detail = http_error_text(source);
                concat2("HTTP request failed: ", detail.as_str())
            },
            HyperLiquidError::InvalidInput(text) => concat2("Invalid input: ", text.as_str()),
            HyperLiquidError::ApiError { status, message } => {
                let mut text = String::from_str("API error: ");
                let number = u64_to_decimal(*status as u64);
                text.append(number.as_str());
                text.append(" - ");
                text.append(message.as_str());
                text
            },
            HyperLiquidError::SerializationError(source) => {
                let detail = json_error_text(source);
                concat2("Serialization error: ", detail.as_str())
            },
            HyperLiquidError::InvalidAddress(text) => concat2(
                "Invalid Ethereum address: ",
                text.as_str(),
            ),
            HyperLiquidError::InvalidCoin(text) => concat2("Invalid coin symbol: ", text.as_str()),
            HyperLiquidError::InvalidTimeRange { start, end } => {
                let mut text = String::from_str("Invalid time range: ");
                let first = u64_to_decimal(*start);
                let second = u64_to_decimal(*end);
                text.append("start_time (");
                text.append(first.as_str());
                text.append(") must be less than end_time (");
                text.append(second.as_str());
                text.append(")");
                text
            },
            HyperLiquidError::RateLimitExceeded => String::from_str("Rate limit exceeded"),
            HyperLiquidError::Timeout => String::from_str("Timeout occurred"),
        };
        proof {
            let heading = self@.heading();
            assert(text@.subrange(0, heading.len() as int) =~= heading);
            if !self@.wraps_source() {
                assert(text@ =~= self@.message());
            }
        }
        text
    }
}

impl From<reqwest::Error> for HyperLiquidError {
    fn from(source: reqwest::Error) -> (error: HyperLiquidError) {
        HyperLiquidError::HttpError(source)
    }
}

impl vstd::std_specs::convert::FromSpecImpl<reqwest::Error> for HyperLiquidError {
    open spec fn obeys_from_spec() -> bool {
        true
    }

    open spec fn from_spec(source: reqwest::Error) -> HyperLiquidError {
        HyperLiquidError::HttpError(source)
    }
}

impl From<serde_json::Error> for HyperLiquidError {
    fn from(source: serde_json::Error) -> (error: HyperLiquidError) {
        HyperLiquidError::SerializationError(source)
    }
}

impl vstd::std_specs::convert::FromSpecImpl<serde_json::Error> for HyperLiquidError {
    open spec fn obeys_from_spec() -> bool {
        true
    }

    open spec fn from_spec(source: serde_json::Error) -> HyperLiquidError {
        HyperLiquidError::SerializationError(source)
    }
}

/// An ASCII hexadecimal digit, in either case.
pub open spec fn is_hex_digit(c: char) -> bool {
    ('0' <= c <= '9') || ('a' <= c <= 'f') || ('A' <= c <= 'F')
}

/// The text begins with `0x`.
pub open spec fn has_hex_prefix(text: Seq<char>) -> bool {
    text.len() >= 2 && text[0] == '0' && text[1] == 'x'
}

/// Every character after the first two is a hexadecimal digit.
pub open spec fn hex_after_prefix(text: Seq<char>) -> bool {
    forall|i: int| 2 <= i < text.len() ==> is_hex_digit(#[trigger] text[i])
}

/// The length, in bytes, of an Ethereum address written as text.
pub const ADDRESS_LENGTH: usize = 42;

/// An Ethereum address: `0x`, then hexadecimal digits, 42 bytes in all.
pub open spec fn is_ethereum_address(text: Seq<char>) -> bool {
    has_hex_prefix(text) && utf8_len(text) == ADDRESS_LENGTH && hex_after_prefix(text)
}

/// The rule that `text` breaks as an Ethereum address: the first one in
/// the order prefix, length, digits.
pub open spec fn address_fault(text: Seq<char>) -> Seq<char> {
    if !has_hex_prefix(text) {
        "must start with '0x'"@
    } else if utf8_len(text) != ADDRESS_LENGTH {
        "must be 42 characters long"@ + ", got "@ + decimal_digits(utf8_len(text))
            + " characters"@
    } else {
        "contains non-hexadecimal characters"@
    }
}

/// What is wrong with `text` as an Ethereum address: the text itself in
/// quotes, then the rule it breaks.
pub open spec fn address_complaint(text: Seq<char>) -> Seq<char> {
    "Invalid Ethereum address '"@ + text + "': "@ + address_fault(text)
}

/// Tells whether `c` is an ASCII hexadecimal digit.
fn char_is_hex_digit(c: char) -> (hex: bool)
    ensures
        hex == is_hex_digit(c),
{
    ('0' <= c && c <= '9') || ('a' <= c && c <= 'f') || ('A' <= c && c <= 'F')
}

/// Accepts `address` if it is an Ethereum address, and otherwise says
/// which rule it breaks.
pub fn validate_ethereum_address(address: &str) -> (result: Result<(), HyperLiquidError>)
    ensures
        result is Ok <==> is_ethereum_address(address@),
        result is Err ==> result->Err_0@ == HyperLiquidErrorView::InvalidAddress(
            address_complaint(address@),
        ),
{
    let count = address.unicode_len();
    let prefixed = count >= 2 && address.get_char(0) == '0' && address.get_char(1) == 'x';
    if !prefixed {
        let mut text = concat3("Invalid Ethereum address '", address, "': ");
        text.append("must start with '0x'");
        return Err(HyperLiquidError::InvalidAddress(text));
    }
    let bytes = byte_len(address);
    if bytes != ADDRESS_LENGTH {
        let mut text = concat3("Invalid Ethereum address '", address, "': ");
        let number = u64_to_decimal(bytes as u64);
        text.append("must be 42 characters long");
        text.append(", got ");
        text.append(number.as_str());
        text.append(" characters");
        assert(text@ =~= address_complaint(address@));
        return Err(HyperLiquidError::InvalidAddress(text));
    }
    let mut i: usize = 2;
    while i < count
        invariant
            count == address@.len(),
            2 <= i <= count,
            has_hex_prefix(address@),
            utf8_len(address@) == ADDRESS_LENGTH,
            forall|k: int| 2 <= k < i ==> is_hex_digit(#[trigger] address@[k]),
        decreases count - i,
    {
        if !char_is_hex_digit(address.get_char(i)) {
            let mut text = concat3("Invalid Ethereum address '", address, "': ");
            text.append("contains non-hexadecimal characters");
            return Err(HyperLiquidError::InvalidAddress(text));
        }
        i += 1;
    }
    Ok(())
}

/// `0x` and forty hexadecimal digits make an Ethereum address, and nothing
/// else does.
pub proof fn law_ethereum_address_shape(text: Seq<char>)
    ensures
        is_ethereum_address(text) <==> text.len() == 42 && text[0] == '0' && text[1] == 'x'
            && forall|i: int| 2 <= i < 42 ==> is_hex_digit(#[trigger] text[i]),
{
    if has_hex_prefix(text) && hex_after_prefix(text) {
        assert forall|i: int| 0 <= i < text.len() implies '\0' <= #[trigger] text[i]
            <= '\u{7f}' by {
            if i >= 2 {
                assert(is_hex_digit(text[i]));
            }
        }
        lemma_utf8_len_of_ascii(text);
    }
}

/// Whatever is not an Ethereum address breaks the prefix rule, the length
/// rule or the digit rule, and the complaint names the first of these that
/// it breaks: a text without the prefix is told so whatever its length, and
/// a text with the prefix is told of its digits only if its length is right.
pub proof fn law_address_complaint_names_the_fault(text: Seq<char>)
    requires
        !is_ethereum_address(text),
    ensures
        !has_hex_prefix(text) || utf8_len(text) != ADDRESS_LENGTH || !hex_after_prefix(text),
        !has_hex_prefix(text) ==> address_fault(text) == "must start with '0x'"@,
        has_hex_prefix(text) && utf8_len(text) != ADDRESS_LENGTH ==> address_fault(text)
            == "must be 42 characters long"@ + ", got "@ + decimal_digits(utf8_len(text))
            + " characters"@,
        has_hex_prefix(text) && utf8_len(text) == ADDRESS_LENGTH ==> !hex_after_prefix(text)
            && address_fault(text) == "contains non-hexadecimal characters"@,
{
}

/// Whether `char::is_alphanumeric` holds of a character outside ASCII: it
/// has the Unicode property Alphabetic or is a number of category Nd, Nl
/// or No.
pub uninterp spec fn unicode_alphanumeric(c: char) -> bool;

/// An ASCII letter or digit.
pub open spec fn is_ascii_alphanumeric(c: char) -> bool {
    ('0' <= c <= '9') || ('a' <= c <= 'z') || ('A' <= c <= 'Z')
}

/// A letter or a digit. Within ASCII these are `A` to `Z`, `a` to `z` and
/// `0` to `9`; beyond it, what Unicode counts as alphabetic or numeric.
pub open spec fn is_alphanumeric(c: char) -> bool {
    if c <= '\u{7f}' {
        is_ascii_alphanumeric(c)
    } else {
        unicode_alphanumeric(c)
    }
}

/// Calls `char::is_alphanumeric`, which holds of the characters that
/// Unicode counts as alphabetic or numeric. Of the ASCII characters these
/// are exactly the letters and the digits; of any other character the
/// answer depends on the character alone.
#[verifier::external_body]
fn char_is_alphanumeric(c: char) -> (yes: bool)
    ensures
        c <= '\u{7f}' ==> yes == is_ascii_alphanumeric(c),
        c > '\u{7f}' ==> yes == unicode_alphanumeric(c),
{
    c.is_alphanumeric()
}

/// A character that may stand in a coin symbol.
pub open spec fn is_coin_char(c: char) -> bool {
    is_alphanumeric(c) || c == '-' || c == '_'
}

/// Tells whether `c` may stand in a coin symbol, given whether it is
/// alphanumeric.
pub fn allowed_in_coin(c: char, alphanumeric: bool) -> (allowed: bool)
    ensures
        allowed == (alphanumeric || c == '-' || c == '_'),
{
    alphanumeric || c == '-' || c == '_'
}

/// The most bytes that a coin symbol may take.
pub const MAX_COIN_LENGTH: usize = 10;

/// A coin symbol: one to ten bytes of letters, digits, `-` and `_`.
pub open spec fn is_coin_symbol(text: Seq<char>) -> bool {
    text.len() > 0 && utf8_len(text) <= MAX_COIN_LENGTH && forall|i: int|
        0 <= i < text.len() ==> is_coin_char(#[trigger] text[i])
}

/// What is wrong with `text` as a coin symbol: the first rule it breaks, in
/// the order empty, length, characters.
pub open spec fn coin_complaint(text: Seq<char>) -> Seq<char> {
    if text.len() == 0 {
        "Coin symbol cannot be empty"@
    } else if utf8_len(text) > MAX_COIN_LENGTH {
        "Invalid coin symbol '"@ + text + "': too long (max 10 characters, got "@
            + decimal_digits(utf8_len(text)) + ")"@
    } else {
        "Invalid coin symbol '"@ + text
            + "': contains invalid characters (only alphanumeric, '-', and '_' allowed)"@
    }
}

/// Accepts `coin` if it is a coin symbol, and otherwise says which rule it
/// breaks.
pub fn validate_coin_symbol(coin: &str) -> (result: Result<(), HyperLiquidError>)
    ensures
        result is Ok <==> is_coin_symbol(coin@),
        result is Err ==> result->Err_0@ == HyperLiquidErrorView::InvalidCoin(
            coin_complaint(coin@),
        ),
{
    if coin.is_empty() {
        return Err(HyperLiquidError::InvalidCoin(String::from_str("Coin symbol cannot be empty")));
    }
    let bytes = byte_len(coin);
    if bytes > MAX_COIN_LENGTH {
        let mut text = concat3(
            "Invalid coin symbol '",
            coin,
            "': too long (max 10 characters, got ",
        );
        let number = u64_to_decimal(bytes as u64);
        text.append(number.as_str());
        text.append(")");
        return Err(HyperLiquidError::InvalidCoin(text));
    }
    let count = coin.unicode_len();
    let mut i: usize = 0;
    while i < count
        invariant
            count == coin@.len(),
            i <= count,
            count > 0,
            utf8_len(coin@) <= MAX_COIN_LENGTH,
            forall|k: int| 0 <= k < i ==> is_coin_char(#[trigger] coin@[k]),
        decreases count - i,
    {
        let c = coin.get_char(i);
        if !allowed_in_coin(c, char_is_alphanumeric(c)) {
            return Err(
                HyperLiquidError::InvalidCoin(
                    concat3(
                        "Invalid coin symbol '",
                        coin,
                        "': contains invalid characters (only alphanumeric, '-', and '_' allowed)",
                    ),
                ),
            );
        }
        i += 1;
    }
    Ok(())
}

/// One of the characters `A` to `Z`, `a` to `z`, `0` to `9`, `-` and `_`.
pub open spec fn is_plain_coin_char(c: char) -> bool {
    is_ascii_alphanumeric(c) || c == '-' || c == '_'
}

/// One to ten characters out of letters, digits, `-` and `_` of ASCII make
/// a coin symbol.
pub proof fn law_plain_symbols_are_coin_symbols(text: Seq<char>)
    requires
        1 <= text.len() <= 10,
        forall|i: int| 0 <= i < text.len() ==> is_plain_coin_char(#[trigger] text[i]),
    ensures
        is_coin_symbol(text),
{
    assert forall|i: int| 0 <= i < text.len() implies '\0' <= #[trigger] text[i]
        <= '\u{7f}' by {
        assert(is_plain_coin_char(text[i]));
    }
    lemma_utf8_len_of_ascii(text);
    assert forall|i: int| 0 <= i < text.len() implies is_coin_char(#[trigger] text[i]) by {
        assert(is_plain_coin_char(text[i]));
    }
}

/// The empty text is no coin symbol, nor is a text of more than ten
/// characters, nor one that holds an ASCII character other than a letter,
/// a digit, `-` or `_`, such as `@`, `/` or a space.
pub proof fn law_coin_symbol_rejections(text: Seq<char>, at: int)
    ensures
        text.len() == 0 ==> !is_coin_symbol(text),
        text.len() > 10 ==> !is_coin_symbol(text),
        0 <= at < text.len() && text[at] <= '\u{7f}' && !is_plain_coin_char(text[at])
            ==> !is_coin_symbol(text),
        !is_plain_coin_char('@') && !is_plain_coin_char(' ') && !is_plain_coin_char('/'),
{
    lemma_utf8_len_covers_chars(text);
    if 0 <= at < text.len() && text[at] <= '\u{7f}' && !is_plain_coin_char(text[at]) {
        assert(!is_coin_char(text[at]));
    }
}

/// A time range is valid when it starts strictly before it ends.
pub open spec fn is_time_range(start_time: u64, end_time: u64) -> bool {
    start_time < end_time
}

/// Accepts a time range that starts before it ends, and otherwise returns
/// both bounds in the error.
pub fn validate_time_range(start_time: u64, end_time: u64) -> (result: Result<
    (),
    HyperLiquidError,
>)
    ensures
        result is Ok <==> is_time_range(start_time, end_time),
        result is Err ==> result->Err_0@ == (HyperLiquidErrorView::InvalidTimeRange {
            start: start_time,
            end: end_time,
        }),
{
    if start_time >= end_time {
        return Err(HyperLiquidError::InvalidTimeRange { start: start_time, end: end_time });
    }
    Ok(())
}

/// A range is accepted exactly if it starts before it ends: a range that
/// ends where it starts is rejected, and so is one that ends before.
pub proof fn law_time_range_is_strict(start_time: u64, end_time: u64)
    ensures
        start_time < end_time ==> is_time_range(start_time, end_time),
        start_time == end_time ==> !is_time_range(start_time, end_time),
        start_time > end_time ==> !is_time_range(start_time, end_time),
{
}

/// The candle intervals that the API knows.
pub open spec fn is_candle_interval(text: Seq<char>) -> bool {
    ||| text == "1m"@
    ||| text == "3m"@
    ||| text == "5m"@
    ||| text == "15m"@
    ||| text == "30m"@
    ||| text == "1h"@
    ||| text == "2h"@
    ||| text == "4h"@
    ||| text == "6h"@
    ||| text == "8h"@
    ||| text == "12h"@
    ||| text == "1d"@
    ||| text == "3d"@
    ||| text == "1w"@
    ||| text == "1M"@
}

/// What is wrong with `text` as a candle interval: it is none of the
/// intervals listed.
pub open spec fn interval_complaint(text: Seq<char>) -> Seq<char> {
    "Invalid interval '"@ + text
        + "'. Valid intervals are: 1m, 3m, 5m, 15m, 30m, 1h, 2h, 4h, 6h, 8h, 12h, 1d, 3d, 1w, 1M"@
}

/// Accepts `interval` if it is one of the candle intervals, and otherwise
/// lists the intervals that are.
pub fn validate_interval(interval: &str) -> (result: Result<(), HyperLiquidError>)
    ensures
        result is Ok <==> is_candle_interval(interval@),
        result is Err ==> result->Err_0@ == HyperLiquidErrorView::InvalidInput(
            interval_complaint(interval@),
        ),
{
    let known = str_eq(interval, "1m") || str_eq(interval, "3m") || str_eq(interval, "5m")
        || str_eq(interval, "15m") || str_eq(interval, "30m") || str_eq(interval, "1h") || str_eq(
        interval,
        "2h",
    ) || str_eq(interval, "4h") || str_eq(interval, "6h") || str_eq(interval, "8h") || str_eq(
        interval,
        "12h",
    ) || str_eq(interval, "1d") || str_eq(interval, "3d") || str_eq(interval, "1w") || str_eq(
        interval,
        "1M",
    );
    if !known {
        return Err(
            HyperLiquidError::InvalidInput(
                concat3(
                    "Invalid interval '",
                    interval,
                    "'. Valid intervals are: 1m, 3m, 5m, 15m, 30m, 1h, 2h, 4h, 6h, 8h, 12h, 1d, 3d, 1w, 1M",
                ),
            ),
        );
    }
    Ok(())
}

} // verus!
