//! The user type, its validating constructors and their error type.
use vstd::prelude::*;
use crate::text::trimmed;
use vstd::std_specs::cmp::PartialEqSpec;

verus! {

/// Why an environment variable could not be read.
#[derive(Debug)]
pub enum VarFailure {
    /// The variable is not set.
    NotPresent,
    /// The variable is set, but its value is not valid Unicode; holds the
    /// value with invalid sequences replaced.
    NotUnicode(String),
}

/// Why a user could not be constructed.
#[derive(Debug)]
pub enum NewUserError {
    /// The name was empty once trimmed; holds a short explanation.
    InvalidName(String),
    /// Reading the line of input failed; holds the failure's description.
    Io(String),
    /// Looking up the environment variable failed.
    Var(VarFailure),
}

/// A user with a name that is never empty.
#[derive(Debug, Hash)]
pub struct User {
    name: String,
}

/// The platform families that name the user's variable differently.
#[derive(Debug, Clone, Copy, PartialEq, Eq)]
pub enum PlatformFamily {
    Windows,
    Unix,
}

/// The explanation carried by `NewUserError::InvalidName`.
pub open spec fn invalid_name_message() -> Seq<char> {
    "name too short"@
}

/// What constructing a user from `raw` gives: a user named by the trimmed text,
/// or `InvalidName` where nothing is left once trimmed.
pub open spec fn constructed(raw: Seq<char>, r: Result<User, NewUserError>) -> bool {
    match r {
        Ok(u) => trimmed(raw).len() > 0 && u@ == trimmed(raw),
        Err(NewUserError::InvalidName(m)) => trimmed(raw).len() == 0 && m@
            == invalid_name_message(),
        Err(_) => false,
    }
}

impl View for User {
    type V = Seq<char>;

    /// The user's name.
    closed spec fn view(&self) -> Seq<char> {
        self.name@
    }
}

impl User {
    #[verifier::type_invariant]
    spec fn inv(&self) -> bool {
        self.name@.len() > 0
    }

    /// The user's name.
    pub fn name(&self) -> (r: &String)
        ensures
            r@ == self@,
            r@.len() > 0,
    {
        proof {
            use_type_invariant(self);
        }
        &self.name
    }

    /// Builds a user from `name` with surrounding white space removed; fails
    /// with `InvalidName` where nothing is left.
    pub fn new(name: String) -> (r: Result<User, NewUserError>)
        ensures
            constructed(name@, r),
    {
        let t = name.as_str().trim();
        if !t.is_empty() {
            Ok(User { name: t.to_owned() })
        } else {
            Err(NewUserError::InvalidName("name too short".to_owned()))
        }
    }

    /// Builds a user from borrowed text, as `new` does.
    pub fn from_text(text: &str) -> (r: Result<User, NewUserError>)
        ensures
            constructed(text@, r),
    {
        User::new(text.to_owned())
    }

    /// Builds a user from the outcome of looking up the user's environment
    /// variable: its value is trimmed and validated as by `new`, and a failed
    /// lookup becomes `Var`.
    pub fn from_env(lookup: Result<String, VarFailure>) -> (r: Result<User, NewUserError>)
        ensures
            match lookup {
                Ok(v) => constructed(v@, r),
                Err(f) => r == Err::<User, NewUserError>(NewUserError::Var(f)),
            },
    {
        match lookup {
            Ok(v) => User::new(v),
            Err(f) => Err(NewUserError::Var(f)),
        }
    }

    /// Builds a user from the outcome of reading one line of input: the line is
    /// trimmed, its line break included, and validated as by `new`, and a failed
    /// read becomes `Io`.
    pub fn from_stdin(line: Result<String, String>) -> (r: Result<User, NewUserError>)
        ensures
            match line {
                Ok(l) => constructed(l@, r),
                Err(m) => r == Err::<User, NewUserError>(NewUserError::Io(m)),
            },
    {
        match line {
            Ok(l) => User::new(l),
            Err(m) => Err(NewUserError::Io(m)),
        }
    }

    /// The name as shown to people.
    pub fn display_name(&self) -> (r: String)
        ensures
            r@ == self@,
    {
        self.name.clone()
    }

    /// The line that greets the user: `Hello, <name>!`.
    pub fn greeting(&self) -> (r: String)
        ensures
            r@ == "Hello, "@ + self@ + "!"@,
    {
        let mut g = "Hello, ".to_owned();
        g.append(self.name.as_str());
        g.append("!");
        g
    }
}

/// The name of the environment variable that holds the user's name on a
/// platform of `family`.
pub fn user_var(family: PlatformFamily) -> (r: &'static str)
    ensures
        family == PlatformFamily::Windows ==> r@ == "USERNAME"@,
        family == PlatformFamily::Unix ==> r@ == "USER"@,
{
    match family {
        PlatformFamily::Windows => "USERNAME",
        PlatformFamily::Unix => "USER",
    }
}

impl Default for User {
    /// The user named `World`.
    fn default() -> (r: User)
        ensures
            r@ == "World"@,
    {
        let name = "World".to_owned();
        proof {
            reveal_strlit("World");
        }
        User { name }
    }
}

impl Clone for User {
    /// An independent copy with the same name.
    fn clone(&self) -> (r: User)
        ensures
            r == *self,
    {
        proof {
            use_type_invariant(self);
        }
        User { name: self.name.clone() }
    }
}

impl PartialEq for User {
    /// Users are equal when their names are.
    fn eq(&self, other: &User) -> (r: bool)
        ensures
            r == (self@ == other@),
    {
        self.name == other.name
    }
}

impl vstd::std_specs::cmp::PartialEqSpecImpl for User {
    open spec fn obeys_eq_spec() -> bool {
        true
    }

    open spec fn eq_spec(&self, other: &User) -> bool {
        self@ == other@
    }
}

impl Eq for User {
}

/// Equality of users is reflexive, symmetric and transitive, and it holds
/// exactly when the names are equal.
pub proof fn lemma_eq_equivalence(a: User, b: User, c: User)
    ensures
        a.eq_spec(&a),
        a.eq_spec(&b) == b.eq_spec(&a),
        a.eq_spec(&b) && b.eq_spec(&c) ==> a.eq_spec(&c),
        a.eq_spec(&b) <==> a@ == b@,
{
}

/// Two texts that trim to the same name construct equal users.
pub proof fn lemma_same_trimmed_equal(
    s1: Seq<char>,
    s2: Seq<char>,
    r1: Result<User, NewUserError>,
    r2: Result<User, NewUserError>,
)
    requires
        constructed(s1, r1),
        constructed(s2, r2),
        trimmed(s1) == trimmed(s2),
    ensures
        r1 is Ok <==> r2 is Ok,
        r1 is Ok ==> r1->Ok_0.eq_spec(&r2->Ok_0),
{
}

} // verus!
