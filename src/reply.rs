use vstd::prelude::*;

use crate::error::ScreenshotError;

verus! {

/// The 64 digits of the standard base64 alphabet, in order.
pub open spec fn base64_alphabet() -> Seq<char> {
    "ABCDEFGHIJKLMNOPQRSTUVWXYZabcdefghijklmnopqrstuvwxyz0123456789+/"@
}

/// The base64 digit of a six-bit value.
pub open spec fn base64_digit(v: int) -> char {
    base64_alphabet()[v]
}

/// The standard base64 text of `bytes`: each group of three bytes becomes
/// four digits of six bits each, and a last group of one or two bytes is
/// filled with zero bits and padded with `=` to four characters.
pub open spec fn base64_of(bytes: Seq<u8>) -> Seq<char>
    decreases bytes.len(),
{
    if bytes.len() == 0 {
        seq![]
    } else if bytes.len() == 1 {
        let b0 = bytes[0] as int;
        seq![base64_digit(b0 / 4), base64_digit((b0 % 4) * 16), '=', '=']
    } else if bytes.len() == 2 {
        let (b0, b1) = (bytes[0] as int, bytes[1] as int);
        seq![
            base64_digit(b0 / 4),
            base64_digit((b0 % 4) * 16 + b1 / 16),
            base64_digit((b1 % 16) * 4),
            '=',
        ]
    } else {
        let (b0, b1, b2) = (bytes[0] as int, bytes[1] as int, bytes[2] as int);
        seq![
            base64_digit(b0 / 4),
            base64_digit((b0 % 4) * 16 + b1 / 16),
            base64_digit((b1 % 16) * 4 + b2 / 64),
            base64_digit(b2 % 64),
        ] + base64_of(bytes.subrange(3, bytes.len() as int))
    }
}

/// Relies on `base64::Engine::encode` with the `STANDARD` engine: the padded
/// standard-alphabet encoding of the bytes, four characters for each group of
/// three bytes or less.
#[verifier::external_body]
fn encode_base64(bytes: &Vec<u8>) -> (r: String)
    ensures
        r@ == base64_of(bytes@),
        r@.len() == 4 * ((bytes@.len() + 2) / 3),
{
    base64::Engine::encode(&base64::engine::general_purpose::STANDARD, bytes)
}

/// The greeting for `name`.
pub fn greet(name: &str) -> (r: String)
    ensures
        r@ == "Hello, "@ + name@ + "! You've been greeted from Rust!"@,
{
    let mut text = String::from_str("Hello, ");
    text.append(name);
    text.append("! You've been greeted from Rust!");
    text
}

/// A data URI that carries a PNG image given as base64 text.
pub fn png_data_uri(encoded: &str) -> (r: String)
    ensures
        r@ == "data:image/png;base64,"@ + encoded@,
{
    let mut text = String::from_str("data:image/png;base64,");
    text.append(encoded);
    text
}

/// The answer to a front end that asked for a screenshot: the image as a
/// data URI, or the error as text.
pub fn screenshot_reply(result: Result<Vec<u8>, ScreenshotError>) -> (r: Result<String, String>)
    ensures
        match result {
            Ok(bytes) => r matches Ok(uri) && uri@ == "data:image/png;base64,"@ + base64_of(bytes@),
            Err(e) => r matches Err(text) && text@ == "截图失败: "@ + "Screenshot error: "@
                + e.spec_message(),
        },
{
    match result {
        Ok(bytes) => {
            let encoded = encode_base64(&bytes);
            Ok(png_data_uri(encoded.as_str()))
        },
        Err(e) => {
            let mut text = String::from_str("截图失败: ");
            let shown = e.to_string();
            text.append(shown.as_str());
            proof {
                assert(text@ == "截图失败: "@ + ("Screenshot error: "@ + e.spec_message()));
                assert(text@ =~= "截图失败: "@ + "Screenshot error: "@ + e.spec_message());
            }
            Err(text)
        },
    }
}

} // verus!
