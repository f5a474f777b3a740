use vstd::prelude::*;
use vstd::string::*;

verus! {

/// Identity of one published package version: `(name, version)`.
#[derive(Clone, Debug, PartialEq, Eq, Hash)]
pub struct CargoPackage {
    pub name: String,
    pub version: String,
}

/// Another name for the package identity `CargoPackage`.
pub type CrateInfo = CargoPackage;

impl View for CargoPackage {
    type V = (Seq<char>, Seq<char>);

    open spec fn view(&self) -> (Seq<char>, Seq<char>) {
        (self.name@, self.version@)
    }
}

/// The canonical package-URL text `pkg:cargo/<name>@<version>`.
pub open spec fn purl_text(name: Seq<char>, version: Seq<char>) -> Seq<char> {
    "pkg:cargo/"@ + name + "@"@ + version
}

impl CargoPackage {
    pub fn new(name: String, version: String) -> (r: Self)
        ensures
            r.name == name,
            r.version == version,
    {
        Self { name, version }
    }

    pub fn with(name: &str, version: &str) -> (r: Self)
        ensures
            r.name@ == name@,
            r.version@ == version@,
    {
        Self { name: String::from_str(name), version: String::from_str(version) }
    }

    /// A copy of this identity, field by field.
    pub fn duplicate(&self) -> (r: Self)
        ensures
            r == *self,
    {
        Self { name: self.name.clone(), version: self.version.clone() }
    }

    /// Whether both identities name the same package version.
    pub fn same_as(&self, other: &CargoPackage) -> (r: bool)
        ensures
            r == (self@ == other@),
    {
        self.name == other.name && self.version == other.version
    }

    /// The canonical package-URL of this identity.
    pub fn purl(&self) -> (r: String)
        ensures
            r@ == purl_text(self.name@, self.version@),
    {
        let mut text = String::from_str("pkg:cargo/");
        text.append(self.name.as_str());
        text.append("@");
        text.append(self.version.as_str());
        proof {
            reveal_strlit("pkg:cargo/");
            reveal_strlit("@");
        }
        text
    }
}


/// The name and optional version that `packageurl` reads from a package-URL text, or
/// `None` where it rejects the text: a property of the text alone.
pub uninterp spec fn purl_parts(text: Seq<char>) -> Option<(Seq<char>, Option<Seq<char>>)>;

pub open spec fn optional_text(text: Option<String>) -> Option<Seq<char>> {
    match text {
        Some(t) => Some(t@),
        None => None,
    }
}

/// Relies on `packageurl::PackageUrl::from_str` and its `name` and `version` getters:
/// the parts that it reads from the text, or nothing where it rejects it.
#[verifier::external_body]
fn parse_purl(text: &str) -> (r: Option<(String, Option<String>)>)
    ensures
        r is None <==> purl_parts(text@) is None,
        r matches Some(parts) ==> purl_parts(text@) == Some((parts.0@, optional_text(parts.1))),
{
    let purl = <packageurl::PackageUrl as std::str::FromStr>::from_str(text).ok()?;
    Some((purl.name().to_string(), purl.version().map(|v| v.to_string())))
}

/// Why a package-URL does not name one package version.
#[derive(Clone, Copy, Debug, PartialEq, Eq, Structural)]
pub enum PurlError {
    Invalid,
    MissingVersion,
}

impl CargoPackage {
    /// The package that parsed package-URL parts name; the version is required.
    pub fn from_purl_parts(parts: Option<(String, Option<String>)>) -> (r: Result<CargoPackage, PurlError>)
        ensures
            parts is None ==> r == Err::<CargoPackage, PurlError>(PurlError::Invalid),
            parts matches Some((_, None)) ==> r == Err::<CargoPackage, PurlError>(
                PurlError::MissingVersion,
            ),
            parts matches Some((name, Some(version))) ==> r is Ok && r->Ok_0.name == name
                && r->Ok_0.version == version,
    {
        match parts {
            None => Err(PurlError::Invalid),
            Some((_, None)) => Err(PurlError::MissingVersion),
            Some((name, Some(version))) => Ok(CargoPackage { name, version }),
        }
    }

    /// The package named by a package-URL such as `pkg:cargo/serde@1.0.226`.
    pub fn try_from_purl(text: &str) -> (r: Result<CargoPackage, PurlError>)
        ensures
            purl_parts(text@) is None ==> r == Err::<CargoPackage, PurlError>(PurlError::Invalid),
            purl_parts(text@) matches Some((_, None)) ==> r == Err::<CargoPackage, PurlError>(
                PurlError::MissingVersion,
            ),
            purl_parts(text@) matches Some((name, Some(version))) ==> r is Ok && r->Ok_0@ == (
            name, version),
    {
        Self::from_purl_parts(parse_purl(text))
    }
}

} // verus!
