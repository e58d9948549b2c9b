use vstd::prelude::*;

verus! {

/// When no name has been set
pub const NO_NAME: [char; 8] = ['N', 'o', ' ', 'n', 'a', 'm', 'e', '!'];

#[derive(Debug, Eq, Hash)]
/// The id used to get set module
pub struct ModulePath<T> {
    /// The path
    pub id: u32,
    /// So the struct saves the type
    pub phantom: core::marker::PhantomData<T>,
    /// An optional name
    pub name: [char; 8],
}

impl<T> Clone for ModulePath<T> {
    fn clone(&self) -> (r: Self)
        ensures
            r.id == self.id,
            r.name == self.name,
    {
        ModulePath { id: self.id, phantom: core::marker::PhantomData, name: self.name }
    }
}

impl<T: Clone> Copy for ModulePath<T> {}

impl<T> PartialEq for ModulePath<T> {
    fn eq(&self, other: &Self) -> (r: bool) {
        self.id == other.id && names_equal(&self.name, &other.name)
    }
}

/// If two names hold the same characters
fn names_equal(a: &[char; 8], b: &[char; 8]) -> (r: bool)
    ensures
        r == (a@ == b@),
{
    let mut i: usize = 0;
    while i < 8
        invariant
            i <= 8,
            forall|j: int| 0 <= j < i ==> a@[j] == b@[j],
        decreases 8 - i,
    {
        if a[i] != b[i] {
            return false;
        }
        i = i + 1;
    }
    assert(a@ =~= b@);
    true
}

impl<T> vstd::std_specs::cmp::PartialEqSpecImpl for ModulePath<T> {
    open spec fn obeys_eq_spec() -> bool {
        true
    }

    open spec fn eq_spec(&self, other: &Self) -> bool {
        self.id == other.id && self.name@ == other.name@
    }
}

/// The name a path gets from a string: its first 8 characters, filled up with spaces
pub open spec fn path_name(s: Seq<char>) -> Seq<char> {
    Seq::new(8, |i: int| if i < s.len() { s[i] } else { ' ' })
}

/// The character at `i`, or a space past the end
fn char_or_space(v: &Vec<char>, i: usize) -> (r: char)
    ensures
        r == if (i as int) < v@.len() { v@[i as int] } else { ' ' },
{
    if i < v.len() { v[i] } else { ' ' }
}

impl<T> ModulePath<T> {
    /// Create a module path with the given id
    pub fn const_new(id: u32) -> (r: Self)
        ensures
            r.id == id,
            r.name@ == NO_NAME@,
    {
        ModulePath { id, phantom: core::marker::PhantomData, name: NO_NAME }
    }

    /// Get the path of the module
    pub fn id(&self) -> (r: u32)
        ensures
            r == self.id,
    {
        self.id
    }

    /// Give the path a name: its first 8 characters are kept, missing ones are spaces
    pub fn with_name(self, name: &str) -> (r: Self)
        ensures
            r.id == self.id,
            r.name@ == path_name(name@),
    {
        let v = crate::modules::widget::text_support::chars_of(name);
        let chars = [
            char_or_space(&v, 0),
            char_or_space(&v, 1),
            char_or_space(&v, 2),
            char_or_space(&v, 3),
            char_or_space(&v, 4),
            char_or_space(&v, 5),
            char_or_space(&v, 6),
            char_or_space(&v, 7),
        ];
        let mut s = self;
        s.name = chars;
        assert(s.name@ =~= path_name(name@));
        s
    }
}

} // verus!
