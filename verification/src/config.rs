//! Rendering the builder configuration: a profile file listing each
//! configured package repository with its URI, a fixed description and its
//! priority.
use vstd::prelude::*;
use vstd::string::*;
use crate::text::dec_chars;

verus! {

/// A package repository the builder tool should consult.
#[derive(Debug)]
pub struct Remote {
    pub name: String,
    pub index_uri: String,
    pub priority: u64,
}

/// The configuration block for one repository.
pub open spec fn remote_block(r: Remote) -> Seq<char> {
    "\n        "@ + r.name@ + ":\n            uri: \""@ + r.index_uri@
        + "\"\n            description: \"Remotely configured repository\"\n            priority: "@
        + dec_chars(r.priority as nat) + "\n                "@
}

/// All repository blocks, joined by newlines.
pub open spec fn remote_blocks(rs: Seq<Remote>) -> Seq<char>
    decreases rs.len(),
{
    if rs.len() == 0 {
        Seq::empty()
    } else if rs.len() == 1 {
        remote_block(rs[0])
    } else {
        remote_blocks(rs.drop_last()) + "\n"@ + remote_block(rs.last())
    }
}

/// The whole profile file.
pub open spec fn config_chars(rs: Seq<Remote>) -> Seq<char> {
    "\navalanche:\n    repositories:\n"@ + remote_blocks(rs) + "\n        "@
}

fn render_remote(r: &Remote) -> (out: String)
    ensures
        out@ == remote_block(*r),
{
    let mut s = "\n        ".to_owned();
    s.append(r.name.as_str());
    s.append(":\n            uri: \"");
    s.append(r.index_uri.as_str());
    s.append("\"\n            description: \"Remotely configured repository\"\n            priority: ");
    let p = crate::text::u64_to_string(r.priority);
    s.append(p.as_str());
    s.append("\n                ");
    proof {
        assert(s@ =~= remote_block(*r));
    }
    s
}

/// Renders the builder configuration for the given repositories, exactly as
/// it is written into the profile directory inside the work directory.
pub fn render_config(remotes: &Vec<Remote>) -> (out: String)
    ensures
        out@ == config_chars(remotes@),
{
    let mut body = String::new();
    let mut i: usize = 0;
    while i < remotes.len()
        invariant
            i <= remotes@.len(),
            body@ == remote_blocks(remotes@.subrange(0, i as int)),
        decreases remotes@.len() - i,
    {
        if i > 0 {
            body.append("\n");
        }
        let block = render_remote(&remotes[i]);
        body.append(block.as_str());
        proof {
            let pre = remotes@.subrange(0, i as int);
            let cur = remotes@.subrange(0, i + 1 as int);
            assert(cur.drop_last() =~= pre);
            assert(cur.last() == remotes@[i as int]);
            if i == 0 {
                assert(body@ =~= remote_blocks(cur));
            } else {
                assert(body@ =~= remote_blocks(cur));
            }
        }
        i += 1;
    }
    let mut out = "\navalanche:\n    repositories:\n".to_owned();
    out.append(body.as_str());
    out.append("\n        ");
    proof {
        assert(remotes@.subrange(0, remotes@.len() as int) =~= remotes@);
        assert(out@ =~= config_chars(remotes@));
    }
    out
}

} // verus!
