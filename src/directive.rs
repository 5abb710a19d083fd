use vstd::prelude::*;

verus! {

/// The shape of a directive line: `@>` and a word, blanks, then an argument
/// without blanks.
pub const DIRECTIVE_PATTERN: &'static str = r"@>(?P<dir>\w+)\s+(?P<arg>\S+)";

/// The name of the directive that swaps the daisy wheel.
pub const DAISY_DIRECTIVE: &'static str = "daisy";

/// A control line typed in place of text.
#[derive(PartialEq, Eq, Debug, Clone)]
pub enum Directive {
    /// Load the wheel description from the named file.
    DaisyHotSwap(String),
}

/// Why a line is not a known directive.
#[derive(PartialEq, Eq, Structural, Debug, Clone, Copy)]
pub enum DirectiveError {
    /// The line does not match the directive shape, or names no known directive.
    Unknown,
}

/// The first and second capture groups of the first match of the regular
/// expression `pattern` in `input`; `None` when the pattern is invalid, does
/// not match, or one of the two groups takes no part in the match.
pub uninterp spec fn regex_groups(pattern: Seq<char>, input: Seq<char>) -> Option<(Seq<char>, Seq<char>)>;

/// Relies on regex::Regex::new, Regex::captures and Captures::get: the
/// groups of the leftmost-first match depend on the pattern and the input alone.
#[verifier::external_body]
fn first_match_groups(pattern: &str, input: &str) -> (r: Option<(String, String)>)
    ensures
        r matches Some(g) ==> regex_groups(pattern@, input@) == Some((g.0@, g.1@)),
        r is None ==> regex_groups(pattern@, input@) is None,
{
    let re = regex::Regex::new(pattern).ok()?;
    let caps = re.captures(input)?;
    let dir = caps.get(1)?.as_str().to_string();
    let arg = caps.get(2)?.as_str().to_string();
    Some((dir, arg))
}

/// The directive named by the captured name and argument.
pub open spec fn spec_directive(groups: Option<(Seq<char>, Seq<char>)>) -> Result<Seq<char>, DirectiveError> {
    match groups {
        Some((dir, arg)) => if dir == DAISY_DIRECTIVE@ {
            Ok(arg)
        } else {
            Err(DirectiveError::Unknown)
        },
        None => Err(DirectiveError::Unknown),
    }
}

/// Whether `r` is the directive `expected` describes.
pub open spec fn directive_result(
    expected: Result<Seq<char>, DirectiveError>,
    r: Result<Directive, DirectiveError>,
) -> bool {
    match expected {
        Ok(arg) => r matches Ok(Directive::DaisyHotSwap(file)) && file@ == arg,
        Err(e) => r == Err::<Directive, DirectiveError>(e),
    }
}

/// The directive for a captured name and argument: the wheel swap for `daisy`,
/// an error for anything else.
pub fn directive_from_groups(groups: Option<(String, String)>) -> (r: Result<Directive, DirectiveError>)
    ensures
        directive_result(
            spec_directive(
                match groups {
                    Some(g) => Some((g.0@, g.1@)),
                    None => None,
                },
            ),
            r,
        ),
{
    match groups {
        Some((dir, arg)) => {
            let daisy = String::from_str(DAISY_DIRECTIVE);
            if dir == daisy {
                Ok(Directive::DaisyHotSwap(arg))
            } else {
                Err(DirectiveError::Unknown)
            }
        },
        None => Err(DirectiveError::Unknown),
    }
}

/// Parse a directive line such as `@>daisy wheels/German.toml`.
pub fn parse_directive(input: &str) -> (r: Result<Directive, DirectiveError>)
    ensures
        directive_result(spec_directive(regex_groups(DIRECTIVE_PATTERN@, input@)), r),
{
    let groups = first_match_groups(DIRECTIVE_PATTERN, input);
    directive_from_groups(groups)
}

} // verus!
