//! Project names: what the service accepts as the name of a project.
use vstd::prelude::*;

verus! {

/// The characters of Unicode's `White_Space` property (those for which
/// `char::is_whitespace` holds).
pub open spec fn is_white_space(c: char) -> bool {
    let u = c as u32;
    ||| 0x9 <= u && u <= 0xd
    ||| u == 0x20
    ||| u == 0x85
    ||| u == 0xa0
    ||| u == 0x1680
    ||| 0x2000 <= u && u <= 0x200a
    ||| u == 0x2028
    ||| u == 0x2029
    ||| u == 0x202f
    ||| u == 0x205f
    ||| u == 0x3000
}

/// Characters that a project name may not hold.
pub open spec fn is_forbidden_name_char(c: char) -> bool {
    ||| c == '/'
    ||| c == '('
    ||| c == ')'
    ||| c == '"'
    ||| c == '<'
    ||| c == '>'
    ||| c == '\\'
    ||| c == '{'
    ||| c == '}'
}

/// The longest project name, in characters.
pub const MAX_PROJECT_NAME_CHARS: usize = 256;

/// A project name is accepted when it is not empty or white space alone, has
/// at most `MAX_PROJECT_NAME_CHARS` characters and holds no forbidden
/// character.
pub open spec fn is_valid_project_name(s: Seq<char>) -> bool {
    &&& exists|i: int| 0 <= i < s.len() && !is_white_space(#[trigger] s[i])
    &&& s.len() <= MAX_PROJECT_NAME_CHARS
    &&& forall|i: int| 0 <= i < s.len() ==> !is_forbidden_name_char(#[trigger] s[i])
}

/// The message that refuses `s` as a project name.
pub open spec fn invalid_name_message(s: Seq<char>) -> Seq<char> {
    s + " is not a valid project name."@
}

fn is_white_space_char(c: char) -> (b: bool)
    ensures
        b == is_white_space(c),
{
    let u = c as u32;
    (0x9 <= u && u <= 0xd) || u == 0x20 || u == 0x85 || u == 0xa0 || u == 0x1680 || (0x2000 <= u
        && u <= 0x200a) || u == 0x2028 || u == 0x2029 || u == 0x202f || u == 0x205f || u == 0x3000
}

fn is_forbidden_name_character(c: char) -> (b: bool)
    ensures
        b == is_forbidden_name_char(c),
{
    c == '/' || c == '(' || c == ')' || c == '"' || c == '<' || c == '>' || c == '\\' || c == '{'
        || c == '}'
}

/// A validated project name; it is also the folder name of the project's
/// floor-plan images, hence the restrictions.
pub struct ProjectName {
    name: String,
}

impl View for ProjectName {
    type V = Seq<char>;

    closed spec fn view(&self) -> Seq<char> {
        self.name@
    }
}

impl ProjectName {
    #[verifier::type_invariant]
    closed spec fn well_formed(self) -> bool {
        is_valid_project_name(self.name@)
    }

    /// Accepts `s` as a project name, or refuses it with a message that
    /// quotes it.
    pub fn parse(s: String) -> (parsed: Result<ProjectName, String>)
        ensures
            parsed is Ok <==> is_valid_project_name(s@),
            parsed matches Ok(name) ==> name@ == s@,
            parsed matches Err(message) ==> message@ == invalid_name_message(s@),
            (exists|i: int| 0 <= i < s@.len() && is_forbidden_name_char(#[trigger] s@[i]))
                ==> parsed is Err,
            (forall|i: int| 0 <= i < s@.len() ==> is_white_space(#[trigger] s@[i])) ==> parsed is Err,
            s@.len() > MAX_PROJECT_NAME_CHARS ==> parsed is Err,
    {
        let n = s.unicode_len();
        if n > MAX_PROJECT_NAME_CHARS {
            return Err(s.concat(" is not a valid project name."));
        }
        let mut i: usize = 0;
        let mut has_visible = false;
        while i < n
            invariant
                i <= n == s@.len() <= MAX_PROJECT_NAME_CHARS,
                has_visible == exists|j: int| 0 <= j < i && !is_white_space(#[trigger] s@[j]),
                forall|j: int| 0 <= j < i ==> !is_forbidden_name_char(#[trigger] s@[j]),
            decreases n - i,
        {
            let c = s.get_char(i);
            if is_forbidden_name_character(c) {
                return Err(s.concat(" is not a valid project name."));
            }
            if !is_white_space_char(c) {
                has_visible = true;
            }
            i = i + 1;
        }
        if !has_visible {
            return Err(s.concat(" is not a valid project name."));
        }
        Ok(ProjectName { name: s })
    }

    /// The name's text.
    pub fn as_ref(&self) -> (text: &str)
        ensures
            text@ == self@,
            is_valid_project_name(self@),
    {
        proof {
            use_type_invariant(self);
        }
        self.name.as_str()
    }
}

/// Law: a name that holds a forbidden character anywhere is refused.
pub proof fn law_forbidden_character_anywhere_is_refused(before: Seq<char>, c: char, after: Seq<char>)
    requires
        is_forbidden_name_char(c),
    ensures
        !is_valid_project_name(before + seq![c] + after),
{
    let s = before + seq![c] + after;
    assert(s[before.len() as int] == c);
}

/// Law: a name that is empty or white space alone is refused.
pub proof fn law_blank_name_is_refused(s: Seq<char>)
    requires
        forall|i: int| 0 <= i < s.len() ==> is_white_space(#[trigger] s[i]),
    ensures
        !is_valid_project_name(s),
{
}

/// Law: a name longer than `MAX_PROJECT_NAME_CHARS` characters is refused.
pub proof fn law_long_name_is_refused(s: Seq<char>)
    requires
        s.len() > MAX_PROJECT_NAME_CHARS,
    ensures
        !is_valid_project_name(s),
{
}

/// Law: a name of one to `MAX_PROJECT_NAME_CHARS` ASCII letters and digits,
/// spaces between them allowed, is accepted.
pub proof fn law_plain_name_is_accepted(s: Seq<char>)
    requires
        0 < s.len() <= MAX_PROJECT_NAME_CHARS,
        'A' <= s[0] <= 'Z' || 'a' <= s[0] <= 'z' || '0' <= s[0] <= '9',
        forall|i: int|
            0 <= i < s.len() ==> ('A' <= #[trigger] s[i] <= 'Z' || 'a' <= s[i] <= 'z' || '0' <= s[i]
                <= '9' || s[i] == ' '),
    ensures
        is_valid_project_name(s),
{
    assert(!is_white_space(s[0]));
    assert forall|i: int| 0 <= i < s.len() implies !is_forbidden_name_char(#[trigger] s[i]) by {
        assert('A' <= s[i] <= 'Z' || 'a' <= s[i] <= 'z' || '0' <= s[i] <= '9' || s[i] == ' ');
    }
}

/// A project to create or rename.
pub struct NewProject {
    pub name: ProjectName,
}

} // verus!
