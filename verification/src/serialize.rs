//! External JSON representations of the records. A post serializes field
//! for field; a user serializes everything except the password hash, which
//! never reaches any output representation.

use crate::post::Post;
use crate::text::{fmt_i64, push_char, spec_i64_dec};
use crate::user::User;
use vstd::prelude::*;

verus! {

/// How one character reads inside a JSON string literal: quote, backslash
/// and the common control characters are escaped, everything else stands
/// as itself.
pub open spec fn spec_json_escape_char(c: char) -> Seq<char> {
    if c == '"' {
        seq!['\\', '"']
    } else if c == '\\' {
        seq!['\\', '\\']
    } else if c == '\n' {
        seq!['\\', 'n']
    } else if c == '\r' {
        seq!['\\', 'r']
    } else if c == '\t' {
        seq!['\\', 't']
    } else {
        seq![c]
    }
}

/// A text escaped for use inside a JSON string literal.
pub open spec fn spec_json_escape(s: Seq<char>) -> Seq<char>
    decreases s.len(),
{
    if s.len() == 0 {
        Seq::empty()
    } else {
        spec_json_escape(s.drop_last()) + spec_json_escape_char(s.last())
    }
}

/// Append a text to `out`, escaped for a JSON string literal.
fn push_json_escaped(out: &mut String, s: &str)
    ensures
        final(out)@ == old(out)@ + spec_json_escape(s@),
{
    let len = s.unicode_len();
    let mut i: usize = 0;
    proof {
        assert(old(out)@ + spec_json_escape(s@.take(0)) =~= old(out)@);
    }
    while i < len
        invariant
            len == s@.len(),
            i <= len,
            out@ == old(out)@ + spec_json_escape(s@.take(i as int)),
        decreases len - i,
    {
        let c = s.get_char(i);
        if c == '"' {
            push_char(out, '\\');
            push_char(out, '"');
        } else if c == '\\' {
            push_char(out, '\\');
            push_char(out, '\\');
        } else if c == '\n' {
            push_char(out, '\\');
            push_char(out, 'n');
        } else if c == '\r' {
            push_char(out, '\\');
            push_char(out, 'r');
        } else if c == '\t' {
            push_char(out, '\\');
            push_char(out, 't');
        } else {
            push_char(out, c);
        }
        proof {
            assert(s@.take(i + 1).drop_last() =~= s@.take(i as int));
            assert(s@.take(i + 1).last() == s@[i as int]);
            assert(out@ =~= old(out)@ + spec_json_escape(s@.take(i + 1)));
        }
        i += 1;
    }
    proof {
        assert(s@.take(len as int) =~= s@);
    }
}

/// A text's value as a JSON string literal, quotes included.
pub open spec fn spec_json_string(s: Seq<char>) -> Seq<char> {
    seq!['"'] + spec_json_escape(s) + seq!['"']
}

/// The external JSON object for a post: every field of the record.
pub open spec fn spec_post_json(p: Post) -> Seq<char> {
    "{\"id\":"@ + spec_i64_dec(p.id as int) + ",\"title\":"@ + spec_json_string(p.title@)
        + ",\"slug\":"@ + spec_json_string(p.slug@) + ",\"content\":"@ + spec_json_string(
        p.content@,
    ) + ",\"excerpt\":"@ + (if p.excerpt is Some {
        spec_json_string(p.excerpt->0@)
    } else {
        "null"@
    }) + ",\"published\":"@ + (if p.published {
        "true"@
    } else {
        "false"@
    }) + ",\"created_at\":"@ + spec_i64_dec(p.created_at as int) + ",\"updated_at\":"@
        + spec_i64_dec(p.updated_at as int) + "}"@
}

/// The external JSON object for a user: identifier, username, email and
/// the timestamps. The password hash has no place here.
pub open spec fn spec_user_json(u: User) -> Seq<char> {
    "{\"id\":"@ + spec_i64_dec(u.id as int) + ",\"username\":"@ + spec_json_string(u.username@)
        + ",\"email\":"@ + spec_json_string(u.email@) + ",\"created_at\":"@ + spec_i64_dec(
        u.created_at as int,
    ) + ",\"updated_at\":"@ + spec_i64_dec(u.updated_at as int) + "}"@
}

/// Append a full JSON string literal.
fn push_json_string(out: &mut String, s: &str)
    ensures
        final(out)@ == old(out)@ + spec_json_string(s@),
{
    push_char(out, '"');
    push_json_escaped(out, s);
    push_char(out, '"');
    proof {
        assert(final(out)@ =~= old(out)@ + spec_json_string(s@));
    }
}

impl Post {
    /// The external JSON representation of this post.
    pub fn to_json(&self) -> (r: String)
        ensures
            r@ == spec_post_json(*self),
    {
        let mut out = String::new();
        out.append("{\"id\":");
        let id_s = fmt_i64(self.id);
        out.append(id_s.as_str());
        out.append(",\"title\":");
        push_json_string(&mut out, self.title.as_str());
        out.append(",\"slug\":");
        push_json_string(&mut out, self.slug.as_str());
        out.append(",\"content\":");
        push_json_string(&mut out, self.content.as_str());
        out.append(",\"excerpt\":");
        match &self.excerpt {
            Some(e) => push_json_string(&mut out, e.as_str()),
            None => out.append("null"),
        }
        out.append(",\"published\":");
        if self.published {
            out.append("true");
        } else {
            out.append("false");
        }
        out.append(",\"created_at\":");
        let c_s = fmt_i64(self.created_at);
        out.append(c_s.as_str());
        out.append(",\"updated_at\":");
        let u_s = fmt_i64(self.updated_at);
        out.append(u_s.as_str());
        out.append("}");
        proof {
            assert(out@ =~= spec_post_json(*self));
        }
        out
    }
}

impl User {
    /// The external JSON representation of this user. The password hash is
    /// omitted: the output is a function of the other fields alone.
    pub fn to_json(&self) -> (r: String)
        ensures
            r@ == spec_user_json(*self),
    {
        let mut out = String::new();
        out.append("{\"id\":");
        let id_s = fmt_i64(self.id);
        out.append(id_s.as_str());
        out.append(",\"username\":");
        push_json_string(&mut out, self.username.as_str());
        out.append(",\"email\":");
        push_json_string(&mut out, self.email.as_str());
        out.append(",\"created_at\":");
        let c_s = fmt_i64(self.created_at);
        out.append(c_s.as_str());
        out.append(",\"updated_at\":");
        let u_s = fmt_i64(self.updated_at);
        out.append(u_s.as_str());
        out.append("}");
        proof {
            assert(out@ =~= spec_user_json(*self));
        }
        out
    }
}

/// A user's external serialization is computed from the identifier, the
/// username, the email and the timestamps alone: two users agreeing on
/// those serialize identically whatever their password hashes, so the raw
/// hash value never appears in the output.
pub proof fn lemma_user_json_hides_hash(u1: User, u2: User)
    requires
        u1.id == u2.id,
        u1.username@ == u2.username@,
        u1.email@ == u2.email@,
        u1.created_at == u2.created_at,
        u1.updated_at == u2.updated_at,
    ensures
        spec_user_json(u1) == spec_user_json(u2),
{
}

} // verus!
