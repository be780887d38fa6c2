//! Choosing a repository's credentials and working out the location and the
//! backend options that its backend is built from.
use std::path::PathBuf;

use rustic_core::Credentials;
use vstd::prelude::*;

use crate::backend::{location_parts, location_to_type_and_path, windows_local_form, BackendType};
use crate::option_table::OptionTable;
use crate::options::{RepositoryOptions, ResticOptions};
use crate::rest_url::{
    parse_url, parsed_url, password_of_url, url_edit_fits, url_with_password, url_with_username,
    username_of_url,
};

verus! {

/// Declares `rustic_core::Credentials` to Verus as an opaque type.
#[verifier::external_type_specification]
#[verifier::external_body]
pub struct ExCredentials(Credentials);

/// The credentials that `rustic_core::Credentials::password` makes of a
/// password: `Credentials::Password` with a copy of it.
pub uninterp spec fn credentials_of_password(password: Seq<char>) -> Credentials;

/// Makes password credentials with `rustic_core::Credentials::password`, which
/// wraps a copy of the password and so depends on the password alone.
#[verifier::external_body]
fn password_credentials(password: &str) -> (credentials: Credentials)
    ensures
        credentials == credentials_of_password(password@),
{
    Credentials::password(password)
}

/// The password a repository is opened with: its own where it gives one,
/// otherwise the default password, if any.
pub open spec fn selected_password(restic: ResticOptions, repository: RepositoryOptions) -> Option<
    Seq<char>,
> {
    match repository.password {
        Some(p) => Some(p@),
        None => match restic.defaults {
            Some(defaults) => match defaults.password {
                Some(p) => Some(p@),
                None => None,
            },
            None => None,
        },
    }
}

/// The password a repository is opened with: its own, which overrides the
/// default one, or else the default one.
pub fn select_password<'a>(restic: &'a ResticOptions, repository: &'a RepositoryOptions) -> (password:
    Option<&'a String>)
    ensures
        match password {
            Some(p) => selected_password(*restic, *repository) == Some(p@),
            None => selected_password(*restic, *repository) is None,
        },
{
    match &repository.password {
        Some(p) => Some(p),
        None => match &restic.defaults {
            Some(defaults) => match &defaults.password {
                Some(p) => Some(p),
                None => None,
            },
            None => None,
        },
    }
}

/// The password credentials a repository is opened with.
pub struct PasswordCredentials {
    /// The password.
    pub password: String,
}

impl PasswordCredentials {
    /// The `rustic_core` credentials for this password.
    pub fn credentials(&self) -> (credentials: Credentials)
        ensures
            credentials == credentials_of_password(self.password@),
    {
        password_credentials(self.password.as_str())
    }
}

/// The credentials a repository is opened with: the password that
/// `select_password` chooses, and `None` where there is none.
pub fn get_credentials(restic: &ResticOptions, repository: &RepositoryOptions) -> (credentials:
    Option<PasswordCredentials>)
    ensures
        match credentials {
            Some(c) => selected_password(*restic, *repository) == Some(c.password@),
            None => selected_password(*restic, *repository) is None,
        },
{
    match select_password(restic, repository) {
        Some(p) => Some(PasswordCredentials { password: p.clone() }),
        None => None,
    }
}

/// Where a repository keeps its cache.
pub enum RepositoryCache<'a> {
    /// In this directory.
    Directory(&'a PathBuf),
    /// Nowhere: the cache is off.
    Disabled,
}

/// Where repositories keep their cache: in the configured cache directory,
/// and nowhere where none is configured.
pub fn repository_cache(restic: &ResticOptions) -> (cache: RepositoryCache)
    ensures
        match restic.cache_dir {
            Some(dir) => cache == RepositoryCache::Directory(&dir),
            None => cache is Disabled,
        },
{
    match &restic.cache_dir {
        Some(dir) => RepositoryCache::Directory(dir),
        None => RepositoryCache::Disabled,
    }
}

/// Why a repository's location cannot be turned into a backend.
#[derive(Clone, Copy, Debug, PartialEq, Eq, Structural)]
pub enum RepositoryError {
    /// The text before the first `:` names no supported backend.
    UnsupportedBackend,
    /// The path of a REST repository is not a URL.
    MalformedRestUrl,
    /// The URL of a REST repository cannot take a user name.
    RestUsernameRejected,
    /// The URL of a REST repository cannot take a password.
    RestPasswordRejected,
    /// Writing the user name or password into the URL of a REST repository
    /// would make it too long to address.
    RestUrlTooLong,
}

/// Where a repository's backend lives and the options it is built with.
pub struct RepositoryLocation {
    /// The location handed to the backend, the backend name included.
    pub location: String,
    /// The backend options.
    pub options: OptionTable,
}

/// The key of the REST user name among the backend options.
pub open spec fn username_key() -> Seq<char> {
    seq!['u', 's', 'e', 'r', 'n', 'a', 'm', 'e']
}

/// The key of the REST password among the backend options.
pub open spec fn password_key() -> Seq<char> {
    seq!['p', 'a', 's', 's', 'w', 'o', 'r', 'd']
}

/// The prefix that marks a REST location.
pub open spec fn rest_prefix() -> Seq<char> {
    seq!['r', 'e', 's', 't', ':']
}

/// The backend options of a repository: the defaults for its backend, with the
/// repository's own options winning where both set a key.
pub open spec fn merged_backend_options(
    restic: ResticOptions,
    repository: RepositoryOptions,
    backend: BackendType,
) -> Map<Seq<char>, Seq<char>> {
    let defaults = match restic.defaults {
        Some(d) => match d.options_for(backend) {
            Some(t) => t@,
            None => Map::empty(),
        },
        None => Map::empty(),
    };
    let own = match repository.backend_options {
        Some(t) => t@,
        None => Map::empty(),
    };
    defaults.union_prefer_right(own)
}

/// The location of a REST repository at URL `path`: the URL with the `username`
/// option written into it where it has no user name, then the `password` option
/// where it has no password, behind `rest:`.
pub open spec fn rest_location(path: Seq<char>, options: Map<Seq<char>, Seq<char>>) -> Result<
    Seq<char>,
    RepositoryError,
> {
    match parsed_url(path) {
        None => Err(RepositoryError::MalformedRestUrl),
        Some(parsed) => {
            let add_username = username_of_url(parsed).len() == 0 && options.contains_key(
                username_key(),
            );
            let with_username = if !add_username {
                Ok(parsed)
            } else if !url_edit_fits(parsed, options[username_key()]) {
                Err(RepositoryError::RestUrlTooLong)
            } else {
                match url_with_username(parsed, options[username_key()]) {
                    Some(named) => Ok(named),
                    None => Err(RepositoryError::RestUsernameRejected),
                }
            };
            match with_username {
                Err(e) => Err(e),
                Ok(named) => {
                    let add_password = password_of_url(named) is None && options.contains_key(
                        password_key(),
                    );
                    let with_password = if !add_password {
                        Ok(named)
                    } else if !url_edit_fits(named, options[password_key()]) {
                        Err(RepositoryError::RestUrlTooLong)
                    } else {
                        match url_with_password(named, options[password_key()]) {
                            Some(done) => Ok(done),
                            None => Err(RepositoryError::RestPasswordRejected),
                        }
                    };
                    match with_password {
                        Err(e) => Err(e),
                        Ok(done) => Ok(rest_prefix() + done),
                    }
                },
            }
        },
    }
}

/// The location and options of a repository's backend, given how its
/// location splits into a backend and a path, or why there are none.
pub open spec fn resolved_from_parts(
    restic: ResticOptions,
    repository: RepositoryOptions,
    parts: Option<(BackendType, Seq<char>)>,
) -> Result<(Seq<char>, Map<Seq<char>, Seq<char>>), RepositoryError> {
    match parts {
        None => Err(RepositoryError::UnsupportedBackend),
        Some((backend, path)) => {
            let options = merged_backend_options(restic, repository, backend);
            if backend == BackendType::Rest {
                match rest_location(path, options) {
                    Ok(location) => Ok((location, options)),
                    Err(e) => Err(e),
                }
            } else {
                Ok((repository.url@, options))
            }
        },
    }
}

/// The location and options of a repository's backend, or why there are none.
pub open spec fn resolved_repository(restic: ResticOptions, repository: RepositoryOptions) -> Result<
    (Seq<char>, Map<Seq<char>, Seq<char>>),
    RepositoryError,
> {
    resolved_from_parts(restic, repository, location_parts(repository.url@))
}

/// The views of a resolved location and its options, or the error.
pub open spec fn resolution_view(resolved: Result<RepositoryLocation, RepositoryError>) -> Result<
    (Seq<char>, Map<Seq<char>, Seq<char>>),
    RepositoryError,
> {
    match resolved {
        Ok(r) => Ok((r.location@, r.options@)),
        Err(e) => Err(e),
    }
}

/// An option that a repository sets itself wins over the default for its
/// backend.
pub proof fn law_repository_option_overrides_default(
    restic: ResticOptions,
    repository: RepositoryOptions,
    backend: BackendType,
    key: Seq<char>,
)
    requires
        repository.backend_options is Some,
        repository.backend_options->0@.contains_key(key),
    ensures
        merged_backend_options(restic, repository, backend).contains_key(key),
        merged_backend_options(restic, repository, backend)[key]
            == repository.backend_options->0@[key],
{
}

/// A default option for the repository's backend applies where the repository
/// does not set that option.
pub proof fn law_default_option_applies(
    restic: ResticOptions,
    repository: RepositoryOptions,
    backend: BackendType,
    key: Seq<char>,
)
    requires
        restic.defaults is Some,
        restic.defaults->0.options_for(backend) is Some,
        restic.defaults->0.options_for(backend)->0@.contains_key(key),
        repository.backend_options is Some ==> !repository.backend_options->0@.contains_key(key),
    ensures
        merged_backend_options(restic, repository, backend).contains_key(key),
        merged_backend_options(restic, repository, backend)[key] == restic.defaults->0.options_for(
            backend,
        )->0@[key],
{
}

/// A repository's own password wins over the default one, which applies only
/// where the repository gives none.
pub proof fn law_repository_password_wins(restic: ResticOptions, repository: RepositoryOptions)
    ensures
        repository.password is Some ==> selected_password(restic, repository) == Some(
            repository.password->0@,
        ),
        repository.password is None && restic.defaults is Some
            && restic.defaults->0.password is Some ==> selected_password(restic, repository)
            == Some(restic.defaults->0.password->0@),
{
}

/// The location and options of a repository do not depend on its password:
/// two repositories with the same location and the same backend options
/// resolve alike, whatever their passwords, names and initialise flags. The
/// password only goes into the credentials.
pub proof fn law_resolution_ignores_repository_password(
    restic: ResticOptions,
    first: RepositoryOptions,
    second: RepositoryOptions,
)
    requires
        first.url@ == second.url@,
        first.backend_options == second.backend_options,
    ensures
        resolved_repository(restic, first) == resolved_repository(restic, second),
        forall|parts: Option<(BackendType, Seq<char>)>|
            #[trigger] resolved_from_parts(restic, first, parts) == resolved_from_parts(
                restic,
                second,
                parts,
            ),
{
    assert forall|backend: BackendType|
        #[trigger] merged_backend_options(restic, first, backend) == merged_backend_options(
            restic,
            second,
            backend,
        ) by {}
}

/// A resolved REST location is `rest:` followed by the URL with the user name
/// and password of exactly the options handed to the backend written in: the
/// defaults for the REST backend overridden by the repository's own.
pub proof fn law_rest_location_takes_credentials_from_options(
    restic: ResticOptions,
    repository: RepositoryOptions,
    path: Seq<char>,
)
    ensures
        match resolved_from_parts(restic, repository, Some((BackendType::Rest, path))) {
            Ok((location, options)) => {
                &&& options == merged_backend_options(restic, repository, BackendType::Rest)
                &&& rest_location(path, options) == Ok::<Seq<char>, RepositoryError>(location)
            },
            Err(e) => rest_location(
                path,
                merged_backend_options(restic, repository, BackendType::Rest),
            ) == Err::<Seq<char>, RepositoryError>(e),
        },
{
}

/// Where the options of a REST repository set neither a user name nor a
/// password, its location is `rest:` followed by its URL as parsed, with
/// nothing written in.
pub proof fn law_rest_location_without_credentials(
    restic: ResticOptions,
    repository: RepositoryOptions,
    path: Seq<char>,
)
    requires
        parsed_url(path) is Some,
        !merged_backend_options(restic, repository, BackendType::Rest).contains_key(username_key()),
        !merged_backend_options(restic, repository, BackendType::Rest).contains_key(password_key()),
    ensures
        resolved_from_parts(restic, repository, Some((BackendType::Rest, path))) == Ok::<
            (Seq<char>, Map<Seq<char>, Seq<char>>),
            RepositoryError,
        >((
            rest_prefix() + parsed_url(path)->0,
            merged_backend_options(restic, repository, BackendType::Rest),
        )),
{
}

/// A location for a backend other than REST is handed over as the repository
/// gives it, with the merged backend options.
pub proof fn law_other_backends_keep_location(
    restic: ResticOptions,
    repository: RepositoryOptions,
    backend: BackendType,
    path: Seq<char>,
)
    requires
        backend != BackendType::Rest,
    ensures
        resolved_from_parts(restic, repository, Some((backend, path))) == Ok::<
            (Seq<char>, Map<Seq<char>, Seq<char>>),
            RepositoryError,
        >((repository.url@, merged_backend_options(restic, repository, backend))),
{
}

/// The REST location for URL `path` with credentials from `options` written in.
fn rest_repository_location(path: &String, options: &OptionTable) -> (location: Result<
    String,
    RepositoryError,
>)
    ensures
        match location {
            Ok(l) => rest_location(path@, options@) == Ok::<Seq<char>, RepositoryError>(l@),
            Err(e) => rest_location(path@, options@) == Err::<Seq<char>, RepositoryError>(e),
        },
{
    let mut url = match parse_url(path.as_str()) {
        Some(u) => u,
        None => {
            return Err(RepositoryError::MalformedRestUrl);
        },
    };
    let username_option = "username".to_string();
    let password_option = "password".to_string();
    proof {
        reveal_strlit("username");
        reveal_strlit("password");
    }
    assert(username_option@ == username_key());
    assert(password_option@ == password_key());
    let ghost parsed = url@;
    if url.username().as_str().is_empty() {
        if let Some(username) = options.get(&username_option) {
            if !url.edit_fits(username.as_str()) {
                return Err(RepositoryError::RestUrlTooLong);
            }
            if !url.set_username(username.as_str()) {
                return Err(RepositoryError::RestUsernameRejected);
            }
        }
    }
    let ghost named = url@;
    assert(named == (if username_of_url(parsed).len() == 0 && options@.contains_key(username_key()) {
        url_with_username(parsed, options@[username_key()])->0
    } else {
        parsed
    }));
    if url.password().is_none() {
        if let Some(password) = options.get(&password_option) {
            if !url.edit_fits(password.as_str()) {
                return Err(RepositoryError::RestUrlTooLong);
            }
            if !url.set_password(password.as_str()) {
                return Err(RepositoryError::RestPasswordRejected);
            }
        }
    }
    let mut location = "rest:".to_string();
    proof {
        reveal_strlit("rest:");
    }
    let text = url.as_str();
    location.append(text);
    assert(location@ == rest_prefix() + url@);
    Ok(location)
}

/// Works out where a repository's backend lives and with which options: the
/// backend options are the defaults for the location's backend overridden by
/// the repository's own; a REST location gets the `username` and `password`
/// options written into its URL where the URL lacks them.
pub fn resolve_repository(restic: &ResticOptions, repository: &RepositoryOptions) -> (resolved:
    Result<RepositoryLocation, RepositoryError>)
    ensures
        resolution_view(resolved) == resolved_repository(*restic, *repository) || (
        windows_local_form(repository.url@) && resolution_view(resolved) == resolved_from_parts(
            *restic,
            *repository,
            Some((BackendType::Local, repository.url@)),
        )),
{
    let (backend, path) = match location_to_type_and_path(repository.url.as_str()) {
        Some(parts) => parts,
        None => {
            return Err(RepositoryError::UnsupportedBackend);
        },
    };
    let mut options = OptionTable::new();
    if let Some(defaults) = &restic.defaults {
        if let Some(default_options) = defaults.get_options_for_backend(&backend) {
            options.extend(default_options);
        }
    }
    if let Some(own) = &repository.backend_options {
        options.extend(own);
    }
    assert(options@ =~= merged_backend_options(*restic, *repository, backend));
    let ghost parts = Some((backend, path@));
    assert(parts == location_parts(repository.url@) || (windows_local_form(repository.url@)
        && parts == Some((BackendType::Local, repository.url@))));
    if backend == BackendType::Rest {
        match rest_repository_location(&path, &options) {
            Ok(location) => Ok(RepositoryLocation { location, options }),
            Err(e) => Err(e),
        }
    } else {
        Ok(RepositoryLocation { location: repository.url.clone(), options })
    }
}

} // verus!
