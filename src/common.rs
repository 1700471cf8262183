use vstd::prelude::*;

verus! {

/// Telephone numbers that carry a country code: an optional `+` and one or two
/// digits, then a North-American style number.
pub const PHONE_PATTERN_INTERNATIONAL: &'static str =
    r"^(\+\d{1,2}\s?)?1?\-?\.?\s?\(?\d{3}\)?[\s.-]?\d{3}[\s.-]?\d{4}$";

/// Telephone numbers written without a country code.
pub const PHONE_PATTERN_LOCAL: &'static str = r"^1?\-?\.?\s?\(?\d{3}\)?[\s.-]?\d{3}[\s.-]?\d{4}$";

/// Whether the regular expression `pattern` compiles (it is well formed and
/// within the default size limit).
pub uninterp spec fn regex_compiles(pattern: Seq<char>) -> bool;

/// Whether the compiled regular expression `pattern` matches somewhere in `text`.
pub uninterp spec fn regex_is_match(pattern: Seq<char>, text: Seq<char>) -> bool;

/// Relies on `regex::Regex::new`, which fails exactly on patterns that do not
/// compile, and on `regex::Regex::is_match`, which reports whether the compiled
/// expression matches the haystack.
#[verifier::external_body]
fn regex_match(pattern: &str, text: &str) -> (r: Option<bool>)
    ensures
        r.is_some() == regex_compiles(pattern@),
        r matches Some(b) ==> b == regex_is_match(pattern@, text@),
{
    match regex::Regex::new(pattern) {
        Ok(re) => Some(re.is_match(text)),
        Err(_) => None,
    }
}

/// The outcome of checking `text` against `pattern`: a match of a compiled expression.
pub open spec fn pattern_accepts(pattern: Seq<char>, text: Seq<char>) -> bool {
    regex_compiles(pattern) && regex_is_match(pattern, text)
}

/// Whether `ph` is a telephone number with an optional country code.
pub fn verify_phone_number_with_country_code(ph: &str) -> (r: bool)
    ensures
        r == pattern_accepts(PHONE_PATTERN_INTERNATIONAL@, ph@),
{
    match regex_match(PHONE_PATTERN_INTERNATIONAL, ph) {
        Some(b) => b,
        None => false,
    }
}

/// Whether `ph` is a telephone number without a country code.
pub fn verify_phone_number_without_country_code(ph: &str) -> (r: bool)
    ensures
        r == pattern_accepts(PHONE_PATTERN_LOCAL@, ph@),
{
    match regex_match(PHONE_PATTERN_LOCAL, ph) {
        Some(b) => b,
        None => false,
    }
}

#[derive(Debug, Clone, PartialEq, Eq)]
pub struct Name {
    pub first: String,
    pub middle: String,
    pub last: String,
}

#[derive(Debug, Clone, PartialEq, Eq)]
pub struct MobileNumber {
    pub number: String,
    pub valid: bool,
}

/// The pattern a number is checked against: the international one when it
/// starts with `+`.
pub open spec fn phone_pattern_for(number: Seq<char>) -> Seq<char> {
    if number.len() > 0 && number[0] == '+' {
        PHONE_PATTERN_INTERNATIONAL@
    } else {
        PHONE_PATTERN_LOCAL@
    }
}

impl MobileNumber {
    /// Keeps the number as given and records whether it is well formed.
    pub fn from(number: String) -> (r: Self)
        ensures
            r.number@ == number@,
            r.valid == pattern_accepts(phone_pattern_for(number@), number@),
    {
        let n = number.as_str().unicode_len();
        let international = n > 0 && number.as_str().get_char(0) == '+';
        let valid = if international {
            verify_phone_number_with_country_code(number.as_str())
        } else {
            verify_phone_number_without_country_code(number.as_str())
        };
        MobileNumber { number, valid }
    }
}

/// The position of the first `@` in `s` at or after `i`, or the length of `s`.
pub open spec fn next_at(s: Seq<char>, i: int) -> int
    decreases s.len() - i,
{
    if i < 0 || i >= s.len() {
        s.len() as int
    } else if s[i] == '@' {
        i
    } else {
        next_at(s, i + 1)
    }
}

/// What comes before the first `@` (all of `s` when there is none).
pub open spec fn email_root(s: Seq<char>) -> Seq<char> {
    s.subrange(0, next_at(s, 0))
}

/// What lies between the first and the second `@` (or the end); empty when `s`
/// has no `@`.
pub open spec fn email_domain(s: Seq<char>) -> Seq<char> {
    let a = next_at(s, 0);
    if a < s.len() {
        s.subrange(a + 1, next_at(s, a + 1))
    } else {
        Seq::empty()
    }
}

proof fn lemma_next_at_bounds(s: Seq<char>, i: int)
    requires
        0 <= i <= s.len(),
    ensures
        i <= next_at(s, i) <= s.len(),
        next_at(s, i) < s.len() ==> s[next_at(s, i)] == '@',
    decreases s.len() - i,
{
    if i < s.len() && s[i] != '@' {
        lemma_next_at_bounds(s, i + 1);
    }
}

/// The position of the first `@` in `s` at or after `from`, or the length of `s`.
fn find_at(s: &str, from: usize, n: usize) -> (r: usize)
    requires
        n == s@.len(),
        from <= n,
    ensures
        r == next_at(s@, from as int),
{
    let mut i: usize = from;
    while i < n
        invariant
            from <= i <= n,
            n == s@.len(),
            next_at(s@, from as int) == next_at(s@, i as int),
        decreases n - i,
    {
        if s.get_char(i) == '@' {
            return i;
        }
        i = i + 1;
    }
    i
}

#[derive(Debug, Clone, PartialEq, Eq)]
pub struct Email {
    pub root: String,
    pub domain: String,
    pub full: String,
}

impl Email {
    /// Splits an address at its `@` signs: the part before the first is the
    /// root, the part after it (up to a second `@`, if any) the domain.
    pub fn from(email: String) -> (r: Self)
        ensures
            r.full@ == email@,
            r.root@ == email_root(email@),
            r.domain@ == email_domain(email@),
    {
        let s = email.as_str();
        let n = s.unicode_len();
        let a = find_at(s, 0, n);
        proof {
            lemma_next_at_bounds(s@, 0);
        }
        let root = String::from_str(s.substring_char(0, a));
        let domain = if a < n {
            let b = find_at(s, a + 1, n);
            proof {
                lemma_next_at_bounds(s@, a + 1);
            }
            String::from_str(s.substring_char(a + 1, b))
        } else {
            proof {
                reveal_strlit("");
            }
            String::from_str("")
        };
        proof {
            assert(domain@ =~= email_domain(email@));
        }
        Email { root, domain, full: email }
    }
}

/// A postal address; the position is in millionths of a degree.
#[derive(Debug, Clone, PartialEq, Eq)]
pub struct Address {
    pub street: String,
    pub street2: String,
    pub city: String,
    pub country: String,
    pub po_code: String,
    pub lat: i64,
    pub lon: i64,
}

/// How to reach a person or a business.
#[derive(Debug, Clone, PartialEq, Eq)]
pub struct ContactInformation {
    pub name: String,
    pub mobile: MobileNumber,
    pub email: Email,
    pub landline: String,
    pub address: Address,
}

impl Address {
    /// An address with the same contents.
    pub fn duplicate(&self) -> (r: Address)
        ensures
            r == *self,
    {
        Address {
            street: self.street.clone(),
            street2: self.street2.clone(),
            city: self.city.clone(),
            country: self.country.clone(),
            po_code: self.po_code.clone(),
            lat: self.lat,
            lon: self.lon,
        }
    }
}

impl ContactInformation {
    /// Contact details with the same contents.
    pub fn duplicate(&self) -> (r: ContactInformation)
        ensures
            r == *self,
    {
        ContactInformation {
            name: self.name.clone(),
            mobile: MobileNumber { number: self.mobile.number.clone(), valid: self.mobile.valid },
            email: Email {
                root: self.email.root.clone(),
                domain: self.email.domain.clone(),
                full: self.email.full.clone(),
            },
            landline: self.landline.clone(),
            address: self.address.duplicate(),
        }
    }
}

/// The human-readable body of an error.
#[derive(Debug, Clone, PartialEq, Eq)]
pub struct ErrorResponse {
    pub message: String,
}

/// The categories of failure that the core reports.
#[derive(Debug, Clone, PartialEq, Eq)]
pub enum Error {
    /// The session lacks the authority that the action needs.
    Unauthorized(ErrorResponse),
    /// The input is malformed or inconsistent (a payment that does not cover the cost).
    ValidationError(ErrorResponse),
    /// A referenced transaction, order or line item does not exist.
    NotFound(ErrorResponse),
    /// The store of records failed.
    PersistenceFailure(ErrorResponse),
    /// Stock could not be adjusted after the transaction was recorded.
    ReconciliationFailure(ErrorResponse),
    /// Template content generation is switched off.
    DemoDisabled(String),
}

pub open spec fn input_error_message() -> Seq<char> {
    "Unable to update fields due to malformed inputs"@
}

impl ErrorResponse {
    /// A validation error with the given message.
    pub fn create_error(message: &str) -> (r: Error)
        ensures
            r matches Error::ValidationError(e) && e.message@ == message@,
    {
        Error::ValidationError(ErrorResponse { message: String::from_str(message) })
    }

    /// The validation error for inputs that cannot be applied.
    pub fn input_error() -> (r: Error)
        ensures
            r matches Error::ValidationError(e) && e.message@ == input_error_message(),
    {
        Error::ValidationError(
            ErrorResponse {
                message: String::from_str("Unable to update fields due to malformed inputs"),
            },
        )
    }

    /// An authorisation error with the given message.
    pub fn custom_unauthorized(message: &str) -> (r: Error)
        ensures
            r matches Error::Unauthorized(e) && e.message@ == message@,
    {
        Error::Unauthorized(ErrorResponse { message: String::from_str(message) })
    }

    /// A persistence error that names its cause.
    pub fn db_err(reason: &str) -> (r: Error)
        ensures
            r matches Error::PersistenceFailure(e) && e.message@ == "SQL error, reason: "@
                + reason@,
    {
        let message = String::from_str("SQL error, reason: ").concat(reason);
        Error::PersistenceFailure(ErrorResponse { message })
    }

    /// A lookup error with the given message.
    pub fn not_found(message: &str) -> (r: Error)
        ensures
            r matches Error::NotFound(e) && e.message@ == message@,
    {
        Error::NotFound(ErrorResponse { message: String::from_str(message) })
    }
}

} // verus!
