use vstd::prelude::*;

verus! {

/// A path `rel` taken relative to `root`, as `Path::join` forms it: an
/// absolute `rel` stands alone, an empty root adds nothing, and one
/// separator stands between the two.
pub open spec fn join_spec(root: Seq<char>, rel: Seq<char>) -> Seq<char> {
    if rel.len() > 0 && rel[0] == '/' {
        rel
    } else if root.len() == 0 {
        rel
    } else if root.last() == '/' {
        root + rel
    } else {
        root + seq!['/'] + rel
    }
}

pub fn join_path(root: &str, rel: &str) -> (r: String)
    ensures
        r@ == join_spec(root@, rel@),
{
    let rel_len = rel.unicode_len();
    let root_len = root.unicode_len();
    if rel_len > 0 && rel.get_char(0) == '/' {
        return String::from_str(rel);
    }
    if root_len == 0 {
        return String::from_str(rel);
    }
    let mut r = String::from_str(root);
    if root.get_char(root_len - 1) != '/' {
        proof {
            reveal_strlit("/");
        }
        r.append("/");
    }
    r.append(rel);
    r
}

/// A package version: its name and its version text.
pub struct PackageId {
    pub name: String,
    pub version: String,
}

impl PackageId {
    /// The artifact file name `{name}-{version}.crate`.
    pub open spec fn filename_spec(&self) -> Seq<char> {
        self.name@ + seq!['-'] + self.version@ + seq!['.', 'c', 'r', 'a', 't', 'e']
    }

    /// The label of the package in messages: `{name} v{version}`.
    pub open spec fn label_spec(&self) -> Seq<char> {
        self.name@ + seq![' ', 'v'] + self.version@
    }

    pub fn new(name: &str, version: &str) -> (r: PackageId)
        ensures
            r.name@ == name@,
            r.version@ == version@,
    {
        PackageId { name: String::from_str(name), version: String::from_str(version) }
    }

    pub fn crate_filename(&self) -> (r: String)
        ensures
            r@ == self.filename_spec(),
    {
        let mut r = self.name.clone();
        proof {
            reveal_strlit("-");
            reveal_strlit(".crate");
        }
        r.append("-");
        r.append(self.version.as_str());
        r.append(".crate");
        r
    }

    pub fn label(&self) -> (r: String)
        ensures
            r@ == self.label_spec(),
    {
        let mut r = self.name.clone();
        proof {
            reveal_strlit(" v");
        }
        r.append(" v");
        r.append(self.version.as_str());
        r
    }
}

} // verus!
