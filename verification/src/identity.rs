//! The fixed identifiers under which the calculator class is known.
use vstd::prelude::*;
use vstd::string::*;
use windows_core::GUID;

verus! {

/// Value of the calculator's interface identifier.
pub const IID_ICalculator: u128 = 0xac39fd20_f263_49f7_9374_04c4a384c8aa;

/// Value of the calculator's class identifier.
pub const CLSID_Calculator: u128 = 0x8e7e4b8a_e909_4a03_acdc_4fb03c8c2182;

/// The human-readable alias of the calculator class.
pub const ProgID: &'static str = "Calculator.Basic";

/// A 128-bit identifier of a class or an interface, held as one number whose
/// most significant bits are the identifier's first field.
#[derive(Clone, Copy, Debug, PartialEq, Eq, Structural)]
pub struct Guid {
    pub value: u128,
}

/// The upper-case hexadecimal digit for a value below sixteen.
pub open spec fn hex_digit(nibble: u128) -> char {
    if nibble < 10 {
        (nibble + 48) as char
    } else {
        (nibble + 55) as char
    }
}

impl Guid {
    /// The `k`-th of the identifier's 32 hexadecimal digits, most significant first.
    pub open spec fn digit(self, k: int) -> char {
        hex_digit((self.value >> (((31 - k) * 4) as u128)) & 0xf)
    }

    /// All 32 hexadecimal digits, most significant first.
    pub open spec fn digits(self) -> Seq<char> {
        Seq::new(32, |k: int| self.digit(k))
    }

    /// The registry form of the identifier without braces: the digits in
    /// groups of 8, 4, 4, 4 and 12, separated by hyphens.
    pub open spec fn text_spec(self) -> Seq<char> {
        self.digits().subrange(0, 8) + seq!['-'] + self.digits().subrange(8, 12) + seq!['-']
            + self.digits().subrange(12, 16) + seq!['-'] + self.digits().subrange(16, 20)
            + seq!['-'] + self.digits().subrange(20, 32)
    }

    /// The identifier in registry form: the text between braces.
    pub open spec fn braced_spec(self) -> Seq<char> {
        seq!['{'] + self.text_spec() + seq!['}']
    }

    /// The path, below the classes root, of the key that describes a class
    /// with this identifier.
    pub open spec fn class_key_spec(self) -> Seq<char> {
        "CLSID\\"@ + self.braced_spec()
    }

    pub fn from_u128(value: u128) -> (id: Guid)
        ensures
            id.value == value,
    {
        Guid { value }
    }

    /// The identifier in registry form without braces.
    pub fn text(&self) -> (text: String)
        ensures
            text@ == self.text_spec(),
    {
        debug_text(self.value)
    }

    /// The identifier in registry form, between braces.
    pub fn braced(&self) -> (text: String)
        ensures
            text@ == self.braced_spec(),
    {
        proof {
            reveal_strlit("{");
            reveal_strlit("}");
        }
        let text = String::from_str("{").concat(self.text().as_str()).concat("}");
        assert(text@ =~= self.braced_spec());
        text
    }

    /// The path of the class key for this identifier.
    pub fn class_key(&self) -> (path: String)
        ensures
            path@ == self.class_key_spec(),
    {
        String::from_str("CLSID\\").concat(self.braced().as_str())
    }
}

/// The calculator's interface identifier.
pub fn interface_id() -> (id: Guid)
    ensures
        id.value == IID_ICalculator,
{
    Guid::from_u128(IID_ICalculator)
}

/// The calculator's class identifier.
pub fn class_id() -> (id: Guid)
    ensures
        id.value == CLSID_Calculator,
{
    Guid::from_u128(CLSID_Calculator)
}

/// The text of an identifier has 36 characters: 32 digits, and a hyphen
/// behind the 8th, 12th, 16th and 20th of them.
pub proof fn lemma_text_shape(id: Guid)
    ensures
        id.text_spec().len() == 36,
        id.braced_spec().len() == 38,
        id.text_spec()[8] == '-',
        id.text_spec()[13] == '-',
        id.text_spec()[18] == '-',
        id.text_spec()[23] == '-',
        forall|k: int| 0 <= k < 8 ==> id.text_spec()[k] == id.digit(k),
        forall|k: int| 8 <= k < 12 ==> id.text_spec()[k + 1] == id.digit(k),
        forall|k: int| 12 <= k < 16 ==> id.text_spec()[k + 2] == id.digit(k),
        forall|k: int| 16 <= k < 20 ==> id.text_spec()[k + 3] == id.digit(k),
        forall|k: int| 20 <= k < 32 ==> id.text_spec()[k + 4] == id.digit(k),
{
}

/// Formats the identifier with the `Debug` implementation of
/// `windows_core::GUID`, built by `GUID::from_u128`. That implementation
/// writes the first field as 8 upper-case hexadecimal digits, the second and
/// third as 4 each, the first two bytes of the fourth as 2 each, and the last
/// six bytes as 2 each, with a hyphen between the five groups; `from_u128`
/// fills the fields from the most significant bits down. The contract claims
/// exactly that rendering.
#[verifier::external_body]
fn debug_text(value: u128) -> (text: String)
    ensures
        text@ == (Guid { value }).text_spec(),
{
    format!("{:?}", GUID::from_u128(value))
}

} // verus!
