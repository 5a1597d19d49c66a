//! The identity record persisted for every account.

use vstd::prelude::*;
use vstd::string::StrSliceExecFns;
use crate::role::Role;

verus! {

/// ASCII lowercasing of one character; anything that is not an ASCII
/// capital letter is kept as it is.
pub open spec fn spec_lower_char(c: char) -> char {
    if c == 'A' { 'a' } else if c == 'B' { 'b' } else if c == 'C' { 'c' }
    else if c == 'D' { 'd' } else if c == 'E' { 'e' } else if c == 'F' { 'f' }
    else if c == 'G' { 'g' } else if c == 'H' { 'h' } else if c == 'I' { 'i' }
    else if c == 'J' { 'j' } else if c == 'K' { 'k' } else if c == 'L' { 'l' }
    else if c == 'M' { 'm' } else if c == 'N' { 'n' } else if c == 'O' { 'o' }
    else if c == 'P' { 'p' } else if c == 'Q' { 'q' } else if c == 'R' { 'r' }
    else if c == 'S' { 's' } else if c == 'T' { 't' } else if c == 'U' { 'u' }
    else if c == 'V' { 'v' } else if c == 'W' { 'w' } else if c == 'X' { 'x' }
    else if c == 'Y' { 'y' } else if c == 'Z' { 'z' } else { c }
}

/// The case-normalized form of an email address: every ASCII capital
/// letter lowered, everything else kept.  Emails are unique, stored and
/// looked up in this form.
pub open spec fn spec_normalize_email(s: Seq<char>) -> Seq<char> {
    Seq::new(s.len(), |i: int| spec_lower_char(s[i]))
}

/// Case-normalizes an email address.
pub fn normalize_email(s: &str) -> (r: String)
    ensures
        r@ == spec_normalize_email(s@),
{
    let n = s.unicode_len();
    let mut out = String::new();
    let mut i: usize = 0;
    while i < n
        invariant
            n == s@.len(),
            0 <= i <= n,
            out@ == spec_normalize_email(s@).take(i as int),
        decreases n - i,
    {
        let c = s.get_char(i);
        let piece: &str = match c {
            'A' => "a", 'B' => "b", 'C' => "c", 'D' => "d", 'E' => "e", 'F' => "f",
            'G' => "g", 'H' => "h", 'I' => "i", 'J' => "j", 'K' => "k", 'L' => "l",
            'M' => "m", 'N' => "n", 'O' => "o", 'P' => "p", 'Q' => "q", 'R' => "r",
            'S' => "s", 'T' => "t", 'U' => "u", 'V' => "v", 'W' => "w", 'X' => "x",
            'Y' => "y", 'Z' => "z",
            _ => s.substring_char(i, i + 1),
        };
        proof {
            reveal_strlit("a"); reveal_strlit("b"); reveal_strlit("c"); reveal_strlit("d");
            reveal_strlit("e"); reveal_strlit("f"); reveal_strlit("g"); reveal_strlit("h");
            reveal_strlit("i"); reveal_strlit("j"); reveal_strlit("k"); reveal_strlit("l");
            reveal_strlit("m"); reveal_strlit("n"); reveal_strlit("o"); reveal_strlit("p");
            reveal_strlit("q"); reveal_strlit("r"); reveal_strlit("s"); reveal_strlit("t");
            reveal_strlit("u"); reveal_strlit("v"); reveal_strlit("w"); reveal_strlit("x");
            reveal_strlit("y"); reveal_strlit("z");
            assert(s@.subrange(i as int, i as int + 1) =~= seq![s@[i as int]]);
            assert(piece@ =~= seq![spec_lower_char(s@[i as int])]);
        }
        out.append(piece);
        proof {
            assert(out@ =~= spec_normalize_email(s@).take(i as int + 1));
        }
        i = i + 1;
    }
    proof {
        assert(spec_normalize_email(s@).take(n as int) =~= spec_normalize_email(s@));
    }
    out
}

/// Identity record.  The repository keeps emails and identifiers unique
/// across all users and never stores an empty password hash.
pub struct User {
    pub id: u64,
    pub email: String,
    pub password_hash: String,
    pub first_name: String,
    pub last_name: String,
    pub role: Role,
    pub is_email_verified: bool,
    pub is_active: bool,
    pub created_at: u64,
    pub updated_at: u64,
    /// Instant of the most recent successful login, if any.
    pub last_login: Option<u64>,
}

impl Clone for User {
    fn clone(&self) -> (r: Self)
        ensures
            r == *self,
    {
        User {
            id: self.id,
            email: self.email.clone(),
            password_hash: self.password_hash.clone(),
            first_name: self.first_name.clone(),
            last_name: self.last_name.clone(),
            role: self.role,
            is_email_verified: self.is_email_verified,
            is_active: self.is_active,
            created_at: self.created_at,
            updated_at: self.updated_at,
            last_login: self.last_login,
        }
    }
}

} // verus!
