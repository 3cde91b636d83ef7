//! What a user's workspace is called and where its data lives.
//!
//! Both are functions of the user id alone. Nothing is escaped: a caller
//! that lets user ids reach a shell or a file system must first make sure
//! they are safe there.

use vstd::prelude::*;

verus! {

/// The name of the container that runs the workspace of `user_id`.
pub open spec fn workspace_name_of(user_id: Seq<char>) -> Seq<char> {
    "vscs-"@ + user_id
}

/// `child` joined to `base` as paths are joined on Unix: an absolute
/// `child` stands alone, and a separator is put between the two unless
/// `base` is empty or already ends in one.
pub open spec fn joined_path(base: Seq<char>, child: Seq<char>) -> Seq<char> {
    if child.len() > 0 && child.first() == '/' {
        child
    } else if base.len() == 0 || base.last() == '/' {
        base + child
    } else {
        base + seq!['/'] + child
    }
}

/// The directory that holds the data of `user_id` under `data_root`.
pub open spec fn user_data_dir_of(data_root: Seq<char>, user_id: Seq<char>) -> Seq<char> {
    joined_path(data_root, user_id)
}

/// Distinct user ids never share a workspace name.
pub proof fn lemma_workspace_name_injective(a: Seq<char>, b: Seq<char>)
    requires
        workspace_name_of(a) == workspace_name_of(b),
    ensures
        a == b,
{
    let prefix = "vscs-"@;
    assert((prefix + a).skip(prefix.len() as int) == a);
    assert((prefix + b).skip(prefix.len() as int) == b);
}

/// A workspace name holds the user id it was made from, after a prefix of
/// five characters.
pub proof fn lemma_workspace_name_shape(user_id: Seq<char>)
    ensures
        workspace_name_of(user_id).len() == user_id.len() + 5,
        workspace_name_of(user_id).take(5) == seq!['v', 's', 'c', 's', '-'],
        workspace_name_of(user_id).skip(5) == user_id,
{
    reveal_strlit("vscs-");
    assert(workspace_name_of(user_id).take(5) =~= seq!['v', 's', 'c', 's', '-']);
    assert(workspace_name_of(user_id).skip(5) =~= user_id);
}

/// Names the workspace of `user_id`.
pub fn workspace_name(user_id: &str) -> (name: String)
    ensures
        name@ == workspace_name_of(user_id@),
{
    let mut name = String::from_str("vscs-");
    name.append(user_id);
    name
}

/// Joins `child` to `base` as a Unix path.
pub fn join_path(base: &str, child: &str) -> (path: String)
    ensures
        path@ == joined_path(base@, child@),
{
    if child.unicode_len() > 0 && child.get_char(0) == '/' {
        return child.to_owned();
    }
    let n: usize = base.unicode_len();
    let mut path = String::from_str(base);
    if n > 0 && base.get_char(n - 1) != '/' {
        path.push('/');
    }
    path.append(child);
    path
}

/// The directory that holds the data of `user_id` under `data_root`.
pub fn user_data_dir(data_root: &str, user_id: &str) -> (path: String)
    ensures
        path@ == user_data_dir_of(data_root@, user_id@),
{
    join_path(data_root, user_id)
}

} // verus!
