//! The deletion policy for stored credential files: only a `.json` file may
//! be deleted, and only one whose canonical path lies inside the canonical
//! auth directory. The decision is made here over path strings; resolving
//! paths and removing the file are the shell's work.

use vstd::prelude::*;
use vstd::string::StringExecFns;
use crate::json::{json_obj_get, obj_lookup, JsonValue};

verus! {

/// What a credential file's parsed contents yield: its identity fields and
/// the display name chosen from them. Service-type dispatch and expiry-date
/// parsing stay with the caller.
#[derive(Debug)]
pub struct AccountRecord {
    pub id: String,
    pub service: String,
    pub email: Option<String>,
    pub login: Option<String>,
    pub expired: Option<String>,
    pub display_name: String,
    pub file_path: String,
}

/// A string-valued own key of an object; anything else does not count.
pub open spec fn own_str_field(v: JsonValue, key: Seq<char>) -> Option<Seq<char>> {
    match v {
        JsonValue::Obj(fields) => match obj_lookup(fields@, key) {
            Some(JsonValue::Str(s)) => Some(s@),
            _ => None,
        },
        _ => None,
    }
}

/// Display-name precedence: a non-empty email, else a non-empty login, else
/// the file name.
pub open spec fn display_name_spec(
    email: Option<Seq<char>>,
    login: Option<Seq<char>>,
    file_name: Seq<char>,
) -> Seq<char> {
    if email matches Some(e) && e.len() > 0 {
        email->0
    } else if login matches Some(l) && l.len() > 0 {
        login->0
    } else {
        file_name
    }
}

fn own_str(v: &JsonValue, key: &str) -> (r: Option<String>)
    ensures
        match r {
            Some(s) => own_str_field(*v, key@) == Some(s@),
            None => own_str_field(*v, key@) is None,
        },
{
    match v {
        JsonValue::Obj(fields) => match json_obj_get(fields, key) {
            Some(JsonValue::Str(s)) => Some(s.clone()),
            _ => None,
        },
        _ => None,
    }
}

/// Builds the account record a parsed credential file describes: `None`
/// exactly when the file carries no string-valued `type` field; otherwise
/// the identity fields by own-key lookup and the display name by the
/// documented precedence.
pub fn account_from_json(file_name: String, file_path: String, json: &JsonValue) -> (r: Option<AccountRecord>)
    ensures
        match r {
            Some(rec) => {
                &&& own_str_field(*json, "type"@) == Some(rec.service@)
                &&& (match rec.email {
                    Some(e) => own_str_field(*json, "email"@) == Some(e@),
                    None => own_str_field(*json, "email"@) is None,
                })
                &&& (match rec.login {
                    Some(l) => own_str_field(*json, "login"@) == Some(l@),
                    None => own_str_field(*json, "login"@) is None,
                })
                &&& (match rec.expired {
                    Some(x) => own_str_field(*json, "expired"@) == Some(x@),
                    None => own_str_field(*json, "expired"@) is None,
                })
                &&& rec.id@ == file_name@
                &&& rec.file_path@ == file_path@
                &&& rec.display_name@ == display_name_spec(
                    match rec.email {
                        Some(e) => Some(e@),
                        None => None,
                    },
                    match rec.login {
                        Some(l) => Some(l@),
                        None => None,
                    },
                    file_name@,
                )
            },
            None => own_str_field(*json, "type"@) is None,
        },
{
    let service = match own_str(json, "type") {
        Some(s) => s,
        None => {
            return None;
        },
    };
    let email = own_str(json, "email");
    let login = own_str(json, "login");
    let expired = own_str(json, "expired");
    let display_name = if email.is_some() && email.as_ref().unwrap().as_str().unicode_len() > 0 {
        email.as_ref().unwrap().clone()
    } else if login.is_some() && login.as_ref().unwrap().as_str().unicode_len() > 0 {
        login.as_ref().unwrap().clone()
    } else {
        file_name.clone()
    };
    Some(AccountRecord { id: file_name, service, email, login, expired, display_name, file_path })
}

/// What follows the last `/`; empty when the path ends with one.
pub open spec fn file_name(p: Seq<char>) -> Seq<char>
    decreases p.len(),
{
    if p.len() == 0 {
        p
    } else if p.last() == '/' {
        Seq::empty()
    } else {
        file_name(p.drop_last()).push(p.last())
    }
}

pub open spec fn last_dot(s: Seq<char>) -> Option<int>
    decreases s.len(),
{
    if s.len() == 0 {
        None
    } else if s.last() == '.' {
        Some(s.len() - 1)
    } else {
        last_dot(s.drop_last())
    }
}

/// The extension of a file name: what follows the last `.`, provided that
/// dot is not the name's first character.
pub open spec fn extension_of(name: Seq<char>) -> Option<Seq<char>> {
    match last_dot(name) {
        Some(d) => if d > 0 {
            Some(name.skip(d + 1))
        } else {
            None
        },
        None => None,
    }
}

/// A canonical path lies within a canonical directory iff it equals it or
/// extends it at a component boundary.
pub open spec fn path_within(dir: Seq<char>, target: Seq<char>) -> bool {
    target == dir || (dir.len() < target.len() && target.subrange(0, dir.len() as int) == dir
        && target[dir.len() as int] == '/')
}

proof fn lemma_file_name(s: Seq<char>, k: int)
    requires
        0 <= k <= s.len(),
        forall|j: int| k <= j < s.len() ==> s[j] != '/',
        k == 0 || s[k - 1] == '/',
    ensures
        file_name(s) == s.skip(k),
    decreases s.len(),
{
    if s.len() == 0 {
        assert(s.skip(0) =~= s);
    } else if k == s.len() {
        assert(s.last() == '/');
        assert(s.skip(k) =~= Seq::<char>::empty());
    } else {
        assert(s.last() != '/');
        let t = s.drop_last();
        assert(forall|j: int| k <= j < t.len() ==> t[j] == s[j]);
        lemma_file_name(t, k);
        assert(t.skip(k).push(s.last()) =~= s.skip(k));
    }
}

proof fn lemma_last_dot_some(s: Seq<char>, d: int)
    requires
        0 <= d < s.len(),
        s[d] == '.',
        forall|j: int| d < j < s.len() ==> s[j] != '.',
    ensures
        last_dot(s) == Some(d),
    decreases s.len(),
{
    if d == s.len() - 1 {
    } else {
        assert(s.last() != '.');
        let t = s.drop_last();
        assert(forall|j: int| d < j < t.len() ==> t[j] != '.');
        lemma_last_dot_some(t, d);
    }
}

proof fn lemma_last_dot_none(s: Seq<char>)
    requires
        forall|j: int| 0 <= j < s.len() ==> s[j] != '.',
    ensures
        last_dot(s) is None,
    decreases s.len(),
{
    if s.len() > 0 {
        lemma_last_dot_none(s.drop_last());
    }
}

/// Decides a deletion request. `target` is the path as the caller gave it;
/// `canonical_target` is the outcome of resolving it (an error detail when
/// resolution failed). `Ok` carries the canonical path to remove, exactly
/// when the target names a `.json` file and resolves into the auth
/// directory; each refusal carries its error text.
pub fn delete_account(canonical_auth_dir: &str, target: &str, canonical_target: Result<String, String>) -> (r: Result<String, String>)
    ensures
        ({
            let json_ok = extension_of(file_name(target@)) == Some("json"@);
            match r {
                Ok(p) => {
                    &&& json_ok
                    &&& (canonical_target matches Ok(ct) && p == ct)
                    &&& path_within(canonical_auth_dir@, p@)
                },
                Err(e) => {
                    ||| (!json_ok && e@ == "Only .json auth files can be deleted"@)
                    ||| (json_ok && (canonical_target matches Err(detail)
                        && e@ == "Failed to resolve target file path: "@ + detail@))
                    ||| (json_ok && (canonical_target matches Ok(ct) && !path_within(
                        canonical_auth_dir@,
                        ct@,
                    ) && e@ == "Refusing to delete files outside auth directory"@))
                },
            }
        }),
{
    let len = target.unicode_len();
    let mut k: usize = len;
    while k > 0 && target.get_char(k - 1) != '/'
        invariant
            k <= len,
            len == target@.len(),
            forall|j: int| k <= j < len ==> target@[j] != '/',
        decreases k,
    {
        k = k - 1;
    }
    proof {
        lemma_file_name(target@, k as int);
    }
    let ghost name = file_name(target@);
    let mut d: usize = len;
    while d > k && target.get_char(d - 1) != '.'
        invariant
            k <= d <= len,
            len == target@.len(),
            name == target@.skip(k as int),
            forall|j: int| d <= j < len ==> target@[j] != '.',
        decreases d,
    {
        d = d - 1;
    }
    let json_ok: bool = if d > k && d - 1 > k {
        proof {
            assert(name[d - 1 - k] == target@[d - 1]);
            assert(forall|j: int| d - k <= j < name.len() ==> name[j] == target@[j + k]);
            lemma_last_dot_some(name, d - 1 - k);
            assert(extension_of(name) == Some(name.skip(d - k)));
            assert(name.skip(d - k) =~= target@.skip(d as int));
        }
        let ext_len = len - d;
        if ext_len == 4 {
            let ok = target.get_char(d) == 'j' && target.get_char(d + 1) == 's'
                && target.get_char(d + 2) == 'o' && target.get_char(d + 3) == 'n';
            proof {
                reveal_strlit("json");
                if ok {
                    assert(target@.skip(d as int) =~= "json"@);
                } else {
                    assert(target@.skip(d as int) != "json"@) by {
                        if target@.skip(d as int) == "json"@ {
                            assert(target@.skip(d as int)[0] == target@[d as int]);
                            assert(target@.skip(d as int)[1] == target@[d as int + 1]);
                            assert(target@.skip(d as int)[2] == target@[d as int + 2]);
                            assert(target@.skip(d as int)[3] == target@[d as int + 3]);
                            assert("json"@[0] == 'j' && "json"@[1] == 's' && "json"@[2] == 'o'
                                && "json"@[3] == 'n');
                        }
                    }
                }
            }
            ok
        } else {
            proof {
                reveal_strlit("json");
                assert(target@.skip(d as int).len() != 4);
            }
            false
        }
    } else {
        proof {
            if d == k {
                assert(forall|j: int| 0 <= j < name.len() ==> name[j] == target@[j + k]);
                lemma_last_dot_none(name);
            } else {
                assert(d - 1 == k);
                assert(name[0] == target@[k as int]);
                assert(forall|j: int| 0 < j < name.len() ==> name[j] == target@[j + k]);
                lemma_last_dot_some(name, 0);
            }
        }
        false
    };
    if !json_ok {
        return Err(String::from_str("Only .json auth files can be deleted"));
    }
    let ct = match canonical_target {
        Ok(ct) => ct,
        Err(detail) => {
            let mut e = String::from_str("Failed to resolve target file path: ");
            e.append(detail.as_str());
            return Err(e);
        },
    };
    let dir_len = canonical_auth_dir.unicode_len();
    let ct_len = ct.as_str().unicode_len();
    let within: bool = if ct_len < dir_len {
        proof {
            assert(!path_within(canonical_auth_dir@, ct@));
        }
        false
    } else {
        let mut i: usize = 0;
        let mut matches_prefix = true;
        while i < dir_len
            invariant
                i <= dir_len,
                dir_len == canonical_auth_dir@.len(),
                dir_len <= ct_len,
                ct_len == ct@.len(),
                matches_prefix ==> forall|j: int| 0 <= j < i ==> ct@[j] == canonical_auth_dir@[j],
                !matches_prefix ==> exists|j: int| 0 <= j < i && ct@[j] != canonical_auth_dir@[j],
            decreases dir_len - i,
        {
            if ct.as_str().get_char(i) != canonical_auth_dir.get_char(i) {
                matches_prefix = false;
            }
            i = i + 1;
        }
        if !matches_prefix {
            proof {
                let j = choose|j: int| 0 <= j < dir_len && ct@[j] != canonical_auth_dir@[j];
                if ct@ == canonical_auth_dir@ {
                    assert(ct@[j] == canonical_auth_dir@[j]);
                }
                if dir_len < ct_len && ct@.subrange(0, dir_len as int) == canonical_auth_dir@ {
                    assert(ct@.subrange(0, dir_len as int)[j] == ct@[j]);
                }
            }
            false
        } else if ct_len == dir_len {
            proof {
                assert(ct@ =~= canonical_auth_dir@);
            }
            true
        } else {
            let boundary = ct.as_str().get_char(dir_len) == '/';
            proof {
                assert(ct@.subrange(0, dir_len as int) =~= canonical_auth_dir@);
                if ct@ == canonical_auth_dir@ {
                    assert(ct@.len() == canonical_auth_dir@.len());
                }
            }
            boundary
        }
    };
    if within {
        Ok(ct)
    } else {
        Err(String::from_str("Refusing to delete files outside auth directory"))
    }
}

} // verus!
