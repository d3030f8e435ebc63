//! A person with traits of the library's own: a full name, construction from a
//! full name, and a full name built from first and last names.
use vstd::prelude::*;

verus! {

#[derive(Debug)]
pub struct Person {
    pub _first_name: String,
    pub _last_name: String,
    pub _age: u8,
}

/// The index of the first space in `s` at or after `from`; `s.len()` if there is none.
pub open spec fn space_index_from(s: Seq<char>, from: int) -> int
    decreases s.len() - from,
{
    if from >= s.len() {
        s.len() as int
    } else if s[from] == ' ' {
        from
    } else {
        space_index_from(s, from + 1)
    }
}

proof fn lemma_space_index_bounds(s: Seq<char>, from: int)
    requires
        0 <= from <= s.len(),
    ensures
        from <= space_index_from(s, from) <= s.len(),
        space_index_from(s, from) < s.len() ==> s[space_index_from(s, from)] == ' ',
        forall|k: int| from <= k < space_index_from(s, from) ==> s[k] != ' ',
    decreases s.len() - from,
{
    if from < s.len() && s[from] != ' ' {
        lemma_space_index_bounds(s, from + 1);
    }
}

/// The first space-separated piece of `s`.
pub open spec fn first_piece(s: Seq<char>) -> Seq<char> {
    s.subrange(0, space_index_from(s, 0))
}

/// The second space-separated piece of `s`, which has a space.
pub open spec fn second_piece(s: Seq<char>) -> Seq<char> {
    let i = space_index_from(s, 0);
    s.subrange(i + 1, space_index_from(s, i + 1))
}

/// Finds the first space in `s` at or after `from`.
fn find_space(s: &str, from: usize) -> (r: usize)
    requires
        from <= s@.len(),
    ensures
        r == space_index_from(s@, from as int),
{
    let n = s.unicode_len();
    let mut k = from;
    while k < n
        invariant
            n == s@.len(),
            from <= k <= n,
            space_index_from(s@, from as int) == space_index_from(s@, k as int),
        decreases n - k,
    {
        if s.get_char(k) == ' ' {
            return k;
        }
        k = k + 1;
    }
    k
}

/// Types with a full name.
pub trait HasFullName {
    spec fn full_name_view(&self) -> Seq<char>;

    fn full_name(&self) -> (r: String)
        ensures
            r@ == self.full_name_view(),
    ;
}

impl HasFullName for Person {
    /// First and last name, separated by a space.
    open spec fn full_name_view(&self) -> Seq<char> {
        self._first_name@ + seq![' '] + self._last_name@
    }

    fn full_name(&self) -> (r: String) {
        let mut r = self._first_name.clone();
        r.append(" ");
        r.append(self._last_name.as_str());
        proof {
            reveal_strlit(" ");
        }
        assert(r@ =~= self.full_name_view());
        r
    }
}

/// Types that can be built from a full name such as "First Last".
pub trait InitWithFullName: Sized {
    /// Whether `r` is what `full_name` builds.
    spec fn built_from(full_name: Seq<char>, r: Self) -> bool;

    fn new_instance(full_name: &str) -> (r: Self)
        requires
            full_name@.contains(' '),
        ensures
            Self::built_from(full_name@, r),
    ;
}

impl InitWithFullName for Person {
    /// The first name is the text before the first space, the last name the
    /// text between it and the next space (or the end); the age is zero.
    open spec fn built_from(full_name: Seq<char>, r: Person) -> bool {
        &&& r._first_name@ == first_piece(full_name)
        &&& r._last_name@ == second_piece(full_name)
        &&& r._age == 0
    }

    fn new_instance(full_name: &str) -> (r: Person) {
        let ghost s = full_name@;
        assert(full_name@.contains(' '));
        proof {
            lemma_space_index_bounds(s, 0);
            assert(space_index_from(s, 0) < s.len()) by {
                let w = choose|w: int| 0 <= w < s.len() && s[w] == ' ';
                assert(s[w] == ' ');
            }
        }
        let _n = full_name.unicode_len();
        let i = find_space(full_name, 0);
        proof {
            lemma_space_index_bounds(s, i + 1);
        }
        let j = find_space(full_name, i + 1);
        let first = full_name.substring_char(0, i).to_string();
        let last = full_name.substring_char(i + 1, j).to_string();
        Person { _first_name: first, _last_name: last, _age: 0 }
    }
}

/// Types with a first and a last name.
pub trait HasName {
    spec fn first_name_view(&self) -> Seq<char>;

    spec fn last_name_view(&self) -> Seq<char>;

    fn first_name(&self) -> (r: String)
        ensures
            r@ == self.first_name_view(),
    ;

    fn last_name(&self) -> (r: String)
        ensures
            r@ == self.last_name_view(),
    ;
}

/// Types whose full name is their first and last name.
pub trait PrintFullName: HasName {
    fn print_full_name(&self) -> (r: String)
        ensures
            r@ == self.first_name_view() + seq![' '] + self.last_name_view(),
    ;
}

impl<T: HasName> PrintFullName for T {
    fn print_full_name(&self) -> (r: String) {
        let mut r = self.first_name();
        let last = self.last_name();
        r.append(" ");
        r.append(last.as_str());
        proof {
            reveal_strlit(" ");
        }
        assert(r@ =~= self.first_name_view() + seq![' '] + self.last_name_view());
        r
    }
}

impl HasName for Person {
    open spec fn first_name_view(&self) -> Seq<char> {
        self._first_name@
    }

    open spec fn last_name_view(&self) -> Seq<char> {
        self._last_name@
    }

    fn first_name(&self) -> (r: String) {
        self._first_name.clone()
    }

    fn last_name(&self) -> (r: String) {
        self._last_name.clone()
    }
}

} // verus!
