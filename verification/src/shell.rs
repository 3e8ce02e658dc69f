//! What the surrounding application shell asks the library to compute: the
//! overlay page address for an image, the script that navigates the overlay
//! window there, and the platform's hotkey binding.

use vstd::prelude::*;
use vstd::string::StringExecFns;
use vstd::string::StringSliceAdditionalSpecFns;

verus! {

/// The bytes percent-encoding leaves as they are: ASCII alphanumerics and
/// `-`, `.`, `_`, `~`, named here by their ASCII codes.
pub open spec fn is_unreserved(b: u8) -> bool {
    (48 <= b && b <= 57)  // '0' to '9'
     || (65 <= b && b <= 90)  // 'A' to 'Z'
     || (97 <= b && b <= 122)  // 'a' to 'z'
     || b == 45 || b == 46 || b == 95 || b == 126  // '-' '.' '_' '~'

}

/// The uppercase hexadecimal digit for a value below sixteen: an offset
/// from ASCII '0' (48) for the first ten, from 'A' (65) for the rest.
pub open spec fn hex_digit(n: u8) -> char {
    if n < 10 {
        ((48 + n) as u8) as char
    } else {
        ((55 + n) as u8) as char
    }
}

/// How one byte appears in percent-encoded output: unreserved bytes stand
/// for themselves, every other byte becomes `%` and two uppercase hex
/// digits.
pub open spec fn encoded_byte(b: u8) -> Seq<char> {
    if is_unreserved(b) {
        seq![b as char]
    } else {
        seq!['%', hex_digit(b / 16), hex_digit(b % 16)]
    }
}

/// The percent-encoding of a byte string, byte by byte.
pub open spec fn percent_encoded(bytes: Seq<u8>) -> Seq<char>
    decreases bytes.len(),
{
    if bytes.len() == 0 {
        Seq::empty()
    } else {
        encoded_byte(bytes.first()) + percent_encoded(bytes.drop_first())
    }
}

/// Relies on `urlencoding::encode_binary`: it percent-encodes every byte
/// except ASCII alphanumerics and `-`, `.`, `_`, `~`, writing a `%` and two
/// uppercase hexadecimal digits for each of the rest.
#[verifier::external_body]
fn encode_component(bytes: &[u8]) -> (r: String)
    ensures
        r@ == percent_encoded(bytes@),
{
    urlencoding::encode_binary(bytes).into_owned()
}

/// The overlay page address that shows the image stored at a path with
/// these bytes: the page name, then the percent-encoded path as the `img`
/// query parameter.
pub open spec fn spec_overlay_url(path_bytes: Seq<u8>) -> Seq<char> {
    "image-overlay.html?img="@ + percent_encoded(path_bytes)
}

/// The address the overlay window is sent to in order to display the image
/// at `image_path`.
pub fn overlay_url(image_path: &str) -> (url: String)
    ensures
        url@ == spec_overlay_url(image_path.spec_bytes()),
{
    let mut url = String::from_str("image-overlay.html?img=");
    let encoded = encode_component(image_path.as_bytes());
    url.append(encoded.as_str());
    url
}

/// The script an already-open overlay window runs to navigate to `url`.
pub fn navigation_script(url: &str) -> (script: String)
    ensures
        script@ == "window.location.href = '"@ + url@ + "'"@,
{
    let mut script = String::from_str("window.location.href = '");
    script.append(url);
    script.append("'");
    script
}

/// The global shortcut that flips click-through, as registered with the
/// OS: the command modifier on macOS, control elsewhere.
pub fn hotkey_binding(use_command_modifier: bool) -> (s: String)
    ensures
        use_command_modifier ==> s@ == "Cmd+1"@,
        !use_command_modifier ==> s@ == "Ctrl+1"@,
{
    if use_command_modifier {
        String::from_str("Cmd+1")
    } else {
        String::from_str("Ctrl+1")
    }
}

} // verus!
