//! The kinds of backend a repository location can name, and how a location
//! splits into its kind and its path.
use std::str::FromStr;

use rustic_backend::util::location_to_type_and_path as split_backend_location;
use rustic_backend::SupportedBackend;
use vstd::prelude::*;

verus! {

/// The backends that this build of the exporter supports.
#[derive(Clone, Copy, Debug, PartialEq, Eq, Structural)]
pub enum BackendType {
    /// A repository in the local file system.
    Local,
    /// A repository served over the restic REST protocol.
    Rest,
    /// A repository reached through rclone.
    Rclone,
}

/// The name `local`.
pub open spec fn local_name() -> Seq<char> {
    seq!['l', 'o', 'c', 'a', 'l']
}

/// The display name `Local Backend`, which the parser accepts as well.
pub open spec fn local_display_name() -> Seq<char> {
    seq!['L', 'o', 'c', 'a', 'l', ' ', 'B', 'a', 'c', 'k', 'e', 'n', 'd']
}

/// The name `rest`.
pub open spec fn rest_name() -> Seq<char> {
    seq!['r', 'e', 's', 't']
}

/// The display name `REST Backend`, which the parser accepts as well.
pub open spec fn rest_display_name() -> Seq<char> {
    seq!['R', 'E', 'S', 'T', ' ', 'B', 'a', 'c', 'k', 'e', 'n', 'd']
}

/// The name `rclone`.
pub open spec fn rclone_name() -> Seq<char> {
    seq!['r', 'c', 'l', 'o', 'n', 'e']
}

/// The display name `rclone Backend`, which the parser accepts as well.
pub open spec fn rclone_display_name() -> Seq<char> {
    seq!['r', 'c', 'l', 'o', 'n', 'e', ' ', 'B', 'a', 'c', 'k', 'e', 'n', 'd']
}

/// The backend that a name stands for: `local` or `Local Backend` for the local
/// backend, `rest` or `REST Backend` for the REST backend, `rclone` or
/// `rclone Backend` for the rclone backend. Names are matched exactly, letter
/// case included.
pub open spec fn backend_type_named(name: Seq<char>) -> Option<BackendType> {
    if name == local_name() || name == local_display_name() {
        Some(BackendType::Local)
    } else if name == rest_name() || name == rest_display_name() {
        Some(BackendType::Rest)
    } else if name == rclone_name() || name == rclone_display_name() {
        Some(BackendType::Rclone)
    } else {
        None
    }
}

/// The position of the first `:` in `s`.
pub open spec fn first_colon(s: Seq<char>) -> Option<int>
    decreases s.len(),
{
    if s.len() == 0 {
        None
    } else if s[0] == ':' {
        Some(0)
    } else {
        match first_colon(s.drop_first()) {
            Some(i) => Some(i + 1),
            None => None,
        }
    }
}

/// How a repository location splits into a backend and the path handed to it:
/// a location without `:` is a local path; otherwise the text before the first
/// `:` names the backend and the text after it is the path.
pub open spec fn location_parts(location: Seq<char>) -> Option<(BackendType, Seq<char>)> {
    match first_colon(location) {
        None => Some((BackendType::Local, location)),
        Some(i) => match backend_type_named(location.take(i)) {
            Some(backend) => Some((backend, location.skip(i + 1))),
            None => None,
        },
    }
}

/// A location without `:` has no backend name in front: it is a local path,
/// handed over whole.
pub proof fn law_location_without_colon_is_local(location: Seq<char>)
    requires
        forall|i: int| 0 <= i < location.len() ==> location[i] != ':',
    ensures
        location_parts(location) == Some((BackendType::Local, location)),
{
    lemma_no_colon(location);
}

/// A sequence without `:` has no first `:`.
proof fn lemma_no_colon(s: Seq<char>)
    requires
        forall|i: int| 0 <= i < s.len() ==> s[i] != ':',
    ensures
        first_colon(s) is None,
    decreases s.len(),
{
    if s.len() > 0 {
        assert forall|i: int| 0 <= i < s.drop_first().len() implies s.drop_first()[i] != ':' by {
            assert(s.drop_first()[i] == s[i + 1]);
        }
        lemma_no_colon(s.drop_first());
    }
}

/// The first `:` of `name + ":" + rest` is the one after `name` when `name`
/// holds none.
proof fn lemma_colon_after(name: Seq<char>, rest: Seq<char>)
    requires
        forall|i: int| 0 <= i < name.len() ==> name[i] != ':',
    ensures
        first_colon(name + seq![':'] + rest) == Some(name.len() as int),
    decreases name.len(),
{
    let s = name + seq![':'] + rest;
    if name.len() == 0 {
        assert(s[0] == ':');
    } else {
        assert(s.drop_first() =~= name.drop_first() + seq![':'] + rest);
        assert forall|i: int| 0 <= i < name.drop_first().len() implies name.drop_first()[i]
            != ':' by {
            assert(name.drop_first()[i] == name[i + 1]);
        }
        lemma_colon_after(name.drop_first(), rest);
        assert(s[0] == name[0]);
    }
}

/// The text before the first `:` of a location names its backend, and all of
/// the text after that `:` is the backend's path: `rest:<url>` is the REST
/// backend at `<url>`, `local:<path>` the local backend at `<path>`.
pub proof fn law_location_names_backend(name: Seq<char>, path: Seq<char>)
    requires
        backend_type_named(name) is Some,
    ensures
        location_parts(name + seq![':'] + path) == Some((backend_type_named(name)->0, path)),
{
    let location = name + seq![':'] + path;
    assert forall|i: int| 0 <= i < name.len() implies name[i] != ':' by {
        if name == local_name() {
            assert(name[i] == local_name()[i]);
        } else if name == local_display_name() {
            assert(name[i] == local_display_name()[i]);
        } else if name == rest_name() {
            assert(name[i] == rest_name()[i]);
        } else if name == rest_display_name() {
            assert(name[i] == rest_display_name()[i]);
        } else if name == rclone_name() {
            assert(name[i] == rclone_name()[i]);
        } else {
            assert(name[i] == rclone_display_name()[i]);
        }
    }
    lemma_colon_after(name, path);
    assert(location.take(name.len() as int) =~= name);
    assert(location.skip(name.len() as int + 1) =~= path);
}

/// Whether `location` is one of the forms that the location splitter of
/// `rustic_backend`, built for Windows, takes as a local path whole: a single
/// ASCII character before the first `:` and no `/` anywhere (a drive letter), or
/// a backslash before or after the first `:`.
pub open spec fn windows_local_form(location: Seq<char>) -> bool {
    match first_colon(location) {
        None => false,
        Some(i) => {
            ||| (i == 1 && (location[0] as u32) < 128 && !location.contains('/'))
            ||| location.take(i).contains('\\')
            ||| location.skip(i + 1).contains('\\')
        },
    }
}

/// Parses a backend name with `SupportedBackend::from_str` of `rustic_backend`.
/// The parser is derived by strum; it accepts, letter case included, each
/// variant's `serialize` name (`local`, `rest`, `rclone`) and its `to_string`
/// name (`Local Backend`, `REST Backend`, `rclone Backend`), the only variants
/// in this build.
#[verifier::external_body]
pub(crate) fn parse_backend_type(name: &str) -> (backend: Option<BackendType>)
    ensures
        backend == backend_type_named(name@),
{
    match SupportedBackend::from_str(name) {
        Ok(SupportedBackend::Local) => Some(BackendType::Local),
        Ok(SupportedBackend::Rest) => Some(BackendType::Rest),
        Ok(SupportedBackend::Rclone) => Some(BackendType::Rclone),
        Ok(_) => None,
        Err(_) => None,
    }
}

/// Splits a repository location with `rustic_backend::util::location_to_type_and_path`.
/// That function splits at the first `:`, parses the part before it with
/// `SupportedBackend::try_from` (the parser of `parse_backend_type`) and keeps
/// the rest as the path, takes a location without `:` as a local path, and
/// refuses an unknown name. Built for Windows, it first takes the forms of
/// `windows_local_form` as local paths, whole; the clause allows that outcome
/// for those forms, since the target is not known here.
#[verifier::external_body]
pub(crate) fn location_to_type_and_path(location: &str) -> (parts: Option<(BackendType, String)>)
    ensures
        match parts {
            Some((backend, path)) => location_parts(location@) == Some((backend, path@)) || (
            windows_local_form(location@) && backend == BackendType::Local && path@ == location@),
            None => location_parts(location@) is None,
        },
{
    match split_backend_location(location) {
        Ok((SupportedBackend::Local, path)) => Some((BackendType::Local, path.to_string())),
        Ok((SupportedBackend::Rest, path)) => Some((BackendType::Rest, path.to_string())),
        Ok((SupportedBackend::Rclone, path)) => Some((BackendType::Rclone, path.to_string())),
        Ok(_) => None,
        Err(_) => None,
    }
}

} // verus!
