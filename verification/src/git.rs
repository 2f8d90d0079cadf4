//! The branch repository adapter: lists local and remote branches, resolves a
//! selected name to a checkout plan, and performs the checkout through the
//! version-control backend.

use vstd::prelude::*;
use vstd::string::StrSliceExecFns;
use vstd::string::StringExecFns;

verus! {

#[verifier::external_type_specification]
#[verifier::external_body]
pub struct ExRepository(git2::Repository);

#[verifier::external_type_specification]
#[verifier::external_body]
pub struct ExBackendError(git2::Error);

/// The errors a checkout can surface. `MalformedRemoteName` marks a broken
/// caller contract (a remote name without a `/`); the rest carry the
/// backend's message.
#[derive(Debug)]
pub enum GitError {
    /// No usable repository: fatal, before the interactive loop starts.
    RepositoryUnavailable(String),
    /// A supposedly remote name without a `/` separator.
    MalformedRemoteName,
    /// A ref vanished between listing and resolution.
    ReferenceNotFound(String),
    /// The safe checkout refused to overwrite uncommitted changes.
    CheckoutConflict(String),
    /// Any other backend failure, passed through.
    Backend(String),
}

/// The errors that classify a failure reported by the backend itself.
pub open spec fn is_backend_error(e: GitError) -> bool {
    e is ReferenceNotFound || e is CheckoutConflict || e is Backend
}

impl GitError {
    /// A human-readable one-line description of the error.
    pub fn message(&self) -> (r: String)
        ensures
            match self {
                GitError::RepositoryUnavailable(m) => r@ == m@,
                GitError::MalformedRemoteName => r@ == "Invalid remote branch name"@,
                GitError::ReferenceNotFound(m) => r@ == m@,
                GitError::CheckoutConflict(m) => r@ == m@,
                GitError::Backend(m) => r@ == m@,
            },
    {
        match self {
            GitError::RepositoryUnavailable(m) => m.clone(),
            GitError::MalformedRemoteName => String::from_str("Invalid remote branch name"),
            GitError::ReferenceNotFound(m) => m.clone(),
            GitError::CheckoutConflict(m) => m.clone(),
            GitError::Backend(m) => m.clone(),
        }
    }
}

/// Classifies a backend failure. Relies on `git2::Error::code` to tell the
/// failure kinds apart and on `git2::Error::message` for the text.
#[verifier::external_body]
fn backend_error(e: git2::Error) -> (r: GitError)
    ensures
        is_backend_error(r),
{
    let msg = e.message().to_string();
    match e.code() {
        git2::ErrorCode::NotFound => GitError::ReferenceNotFound(msg),
        git2::ErrorCode::Conflict => GitError::CheckoutConflict(msg),
        _ => GitError::Backend(msg),
    }
}

/// Backend operation: open the repository the environment designates.
/// Relies on `git2::Repository::open_from_env`.
#[verifier::external_body]
fn open_repository() -> (r: Result<git2::Repository, GitError>)
    ensures
        r is Err ==> r->Err_0 is RepositoryUnavailable,
{
    git2::Repository::open_from_env().map_err(
        |e| GitError::RepositoryUnavailable(e.message().to_string()),
    )
}

/// Backend operation: list the names of all local branches (when `local`) or
/// of all remote-tracking branches (qualified as `remote/name`). Relies on
/// `git2::Repository::branches` and `git2::Branch::name`; branches whose name
/// is not valid text are left out, as the backend reports them nameless.
#[verifier::external_body]
fn list_branch_names(repo: &git2::Repository, local: bool) -> (r: Result<Vec<String>, GitError>)
    ensures
        r is Err ==> is_backend_error(r->Err_0),
{
    let kind = if local { git2::BranchType::Local } else { git2::BranchType::Remote };
    let branches = match repo.branches(Some(kind)) {
        Ok(b) => b,
        Err(e) => return Err(backend_error(e)),
    };
    Ok(branches
        .filter_map(Result::ok)
        .filter_map(|(branch, _)| branch.name().ok().flatten().map(|s| s.to_string()))
        .collect())
}

/// Backend operation: resolve a fully qualified ref name to the identity of
/// the commit it points at. Relies on `git2::Repository::find_reference` and
/// `git2::Reference::peel_to_commit`; the identity is the commit's object id.
#[verifier::external_body]
fn resolve_commit_id(repo: &git2::Repository, refname: &str) -> (r: Result<Vec<u8>, GitError>)
    ensures
        r is Err ==> is_backend_error(r->Err_0),
{
    let reference = match repo.find_reference(refname) {
        Ok(re) => re,
        Err(e) => return Err(backend_error(e)),
    };
    match reference.peel_to_commit() {
        Ok(c) => Ok(c.id().as_bytes().to_vec()),
        Err(e) => Err(backend_error(e)),
    }
}

/// Backend operation: create local branch `local_name` at the commit the
/// remote ref `remote_name` points at, and configure it to track that remote
/// ref. Relies on `git2::Repository::find_reference`,
/// `git2::Reference::peel_to_commit`, `git2::Repository::branch` and
/// `git2::Branch::set_upstream`.
#[verifier::external_body]
fn create_tracking_branch(
    repo: &git2::Repository,
    remote_name: &str,
    local_name: &str,
) -> (r: Result<(), GitError>)
    ensures
        r is Err ==> is_backend_error(r->Err_0),
{
    let reference = repo.find_reference(&format!("refs/remotes/{}", remote_name)).map_err(
        backend_error,
    )?;
    let commit = reference.peel_to_commit().map_err(backend_error)?;
    let mut branch = repo.branch(local_name, &commit, false).map_err(backend_error)?;
    branch.set_upstream(Some(remote_name)).map_err(backend_error)?;
    Ok(())
}

/// Backend operation: safe checkout of the named local branch's tree, then
/// move HEAD to that local ref. The safe mode refuses to overwrite files that
/// would lose uncommitted changes. Relies on
/// `git2::Repository::revparse_single`, `git2::Repository::checkout_tree`
/// (safe mode) and `git2::Repository::set_head`.
#[verifier::external_body]
fn safe_checkout_local_ref(repo: &git2::Repository, local_name: &str) -> (r: Result<(), GitError>)
    ensures
        r is Err ==> is_backend_error(r->Err_0),
{
    let mut opts = git2::build::CheckoutBuilder::new();
    opts.safe();
    let obj = repo.revparse_single(&format!("refs/heads/{}", local_name)).map_err(backend_error)?;
    repo.checkout_tree(&obj, Some(&mut opts)).map_err(backend_error)?;
    repo.set_head(&format!("refs/heads/{}", local_name)).map_err(backend_error)
}

/// Backend operation: safe checkout of the remote ref's tree, then point HEAD
/// at the remote ref, leaving it detached from any local branch; no local
/// branch ref is created or moved. Relies on
/// `git2::Repository::find_reference`, `git2::Reference::peel_to_tree`,
/// `git2::Repository::checkout_tree` (safe mode) and
/// `git2::Repository::set_head`.
#[verifier::external_body]
fn safe_checkout_detached(repo: &git2::Repository, remote_name: &str) -> (r: Result<(), GitError>)
    ensures
        r is Err ==> is_backend_error(r->Err_0),
{
    let mut opts = git2::build::CheckoutBuilder::new();
    opts.safe();
    let reference = repo.find_reference(&format!("refs/remotes/{}", remote_name)).map_err(
        backend_error,
    )?;
    let tree = reference.peel_to_tree().map_err(backend_error)?;
    repo.checkout_tree(tree.as_object(), Some(&mut opts)).map_err(backend_error)?;
    repo.set_head(&format!("refs/remotes/{}", remote_name)).map_err(backend_error)
}

/// Where a checkout landed: on a local branch ref, or detached on a
/// remote-tracking commit.
#[derive(PartialEq, Eq, Structural, Clone, Copy, Debug)]
pub enum CheckoutType {
    LOCAL,
    REMOTE,
}

/// The outcome of a resolved checkout.
#[derive(Debug)]
pub struct Checkout {
    pub branch_name: String,
    pub checkout_type: CheckoutType,
}

impl Checkout {
    pub fn new(branch_name: String, checkout_type: CheckoutType) -> (r: Self)
        ensures
            r.branch_name == branch_name,
            r.checkout_type == checkout_type,
    {
        Self { branch_name, checkout_type }
    }
}

/// The checkout plan, in the mathematical model: what resolving a name
/// against the local branch set decides, before any backend work.
pub enum SpecPlan {
    /// The name is a known local branch: check it out directly.
    UseLocal { local: Seq<char> },
    /// A remote name with no local counterpart: create a tracking branch.
    CreateTracking { remote: Seq<char>, local: Seq<char> },
    /// A remote name whose local counterpart exists: the commit identities
    /// decide between the local branch and a detached checkout.
    CompareWithLocal { remote: Seq<char>, local: Seq<char> },
    /// A supposedly remote name without a `/`.
    Malformed,
}

/// Split a qualified remote name at its first `/` into the remote part and
/// the local part; `None` when it holds no `/`.
pub open spec fn spec_split_remote(name: Seq<char>) -> Option<(Seq<char>, Seq<char>)> {
    match name.index_of_first('/') {
        Option::Some(i) => Option::Some((name.take(i), name.skip(i + 1))),
        Option::None => Option::None,
    }
}

/// The four-way decision: local names are used as they are; other names are
/// split as remote names, and their local part picks between creating a
/// tracking branch and comparing with the existing local branch.
pub open spec fn spec_plan(name: Seq<char>, locals: Seq<Seq<char>>) -> SpecPlan {
    if locals.contains(name) {
        SpecPlan::UseLocal { local: name }
    } else {
        match spec_split_remote(name) {
            Option::None => SpecPlan::Malformed,
            Option::Some((_rem, local)) => {
                if locals.contains(local) {
                    SpecPlan::CompareWithLocal { remote: name, local }
                } else {
                    SpecPlan::CreateTracking { remote: name, local }
                }
            },
        }
    }
}

/// What a successful checkout must look like under each plan.
pub open spec fn checkout_matches_plan(c: Checkout, plan: SpecPlan) -> bool {
    match plan {
        SpecPlan::UseLocal { local } => c.branch_name@ == local && c.checkout_type is LOCAL,
        SpecPlan::CreateTracking { remote: _, local } => c.branch_name@ == local
            && c.checkout_type is LOCAL,
        SpecPlan::CompareWithLocal { remote, local } => (c.branch_name@ == local
            && c.checkout_type is LOCAL) || (c.branch_name@ == remote
            && c.checkout_type is REMOTE),
        SpecPlan::Malformed => false,
    }
}

/// The executable checkout plan; `plan_view` maps it onto the model.
#[derive(Debug, PartialEq)]
pub enum CheckoutPlan {
    UseLocal { local: String },
    CreateTracking { remote: String, local: String },
    CompareWithLocal { remote: String, local: String },
    Malformed,
}

pub open spec fn plan_view(p: CheckoutPlan) -> SpecPlan {
    match p {
        CheckoutPlan::UseLocal { local } => SpecPlan::UseLocal { local: local@ },
        CheckoutPlan::CreateTracking { remote, local } => SpecPlan::CreateTracking {
            remote: remote@,
            local: local@,
        },
        CheckoutPlan::CompareWithLocal { remote, local } => SpecPlan::CompareWithLocal {
            remote: remote@,
            local: local@,
        },
        CheckoutPlan::Malformed => SpecPlan::Malformed,
    }
}

/// Whether `name` is one of `names`.
fn contains_name(names: &Vec<String>, name: &String) -> (r: bool)
    ensures
        r == names.deep_view().contains(name@),
{
    let n = names.len();
    let mut i: usize = 0;
    while i < n
        invariant
            n == names.len(),
            i <= n,
            forall|j: int| 0 <= j < i ==> names.deep_view()[j] != name@,
        decreases n - i,
    {
        if names[i] == *name {
            proof {
                assert(names.deep_view()[i as int] == name@);
            }
            return true;
        }
        proof {
            assert(names.deep_view()[i as int] == names@[i as int]@);
        }
        i += 1;
    }
    proof {
        assert forall|j: int| 0 <= j < names.deep_view().len() implies names.deep_view()[j]
            != name@ by {}
    }
    false
}

/// Split a qualified remote name at its first `/` and hand back the local
/// part; `None` when the name holds no `/`.
pub fn split_remote_name(name: &str) -> (r: Option<String>)
    ensures
        match spec_split_remote(name@) {
            Option::Some((_rem, local)) => r matches Option::Some(l) && l@ == local,
            Option::None => r is None,
        },
{
    let len = name.unicode_len();
    let mut i: usize = 0;
    while i < len && name.get_char(i) != '/'
        invariant
            len == name@.len(),
            i <= len,
            forall|j: int| 0 <= j < i ==> name@[j] != '/',
        decreases len - i,
    {
        i += 1;
    }
    proof {
        name@.index_of_first_ensures('/');
    }
    if i == len {
        proof {
            assert(!name@.contains('/'));
        }
        None
    } else {
        proof {
            assert(name@[i as int] == '/');
            assert(name@.contains('/'));
            assert(name@.index_of_first('/') == Option::Some(i as int));
        }
        let local = name.substring_char(i + 1, len).to_owned();
        Some(local)
    }
}

/// The four-way decision table, as an executable function of the requested
/// name and the local branch set alone: no backend work happens here.
pub fn plan_for(name: &String, locals: &Vec<String>) -> (r: CheckoutPlan)
    ensures
        plan_view(r) == spec_plan(name@, locals.deep_view()),
{
    if contains_name(locals, name) {
        CheckoutPlan::UseLocal { local: name.clone() }
    } else {
        match split_remote_name(name.as_str()) {
            Option::None => CheckoutPlan::Malformed,
            Option::Some(local) => {
                if contains_name(locals, &local) {
                    CheckoutPlan::CompareWithLocal { remote: name.clone(), local }
                } else {
                    CheckoutPlan::CreateTracking { remote: name.clone(), local }
                }
            },
        }
    }
}

/// Whether two commit identities are the same.
fn same_commit(a: &Vec<u8>, b: &Vec<u8>) -> (r: bool)
    ensures
        r == (a@ == b@),
{
    if a.len() != b.len() {
        proof {
            assert(a@ != b@);
        }
        return false;
    }
    let n = a.len();
    let mut i: usize = 0;
    while i < n
        invariant
            n == a.len() == b.len(),
            i <= n,
            forall|j: int| 0 <= j < i ==> a@[j] == b@[j],
        decreases n - i,
    {
        if a[i] != b[i] {
            proof {
                assert(a@[i as int] != b@[i as int]);
            }
            return false;
        }
        i += 1;
    }
    proof {
        assert(a@ =~= b@);
    }
    true
}

/// Once a remote name's local counterpart exists, the two commit identities
/// decide: identical means the local branch is up to date and is checked out;
/// different means the remote ref's content is checked out detached, leaving
/// the local branch untouched.
#[derive(Debug, PartialEq)]
pub enum DivergencePlan {
    CheckoutLocal { local: String },
    CheckoutDetached { remote: String },
}

pub fn divergence_plan(
    remote_name: &String,
    local_name: &String,
    local_id: &Vec<u8>,
    remote_id: &Vec<u8>,
) -> (r: DivergencePlan)
    ensures
        local_id@ == remote_id@ ==> (r matches DivergencePlan::CheckoutLocal { local } && local@
            == local_name@),
        local_id@ != remote_id@ ==> (r matches DivergencePlan::CheckoutDetached { remote }
            && remote@ == remote_name@),
{
    if same_commit(local_id, remote_id) {
        DivergencePlan::CheckoutLocal { local: local_name.clone() }
    } else {
        DivergencePlan::CheckoutDetached { remote: remote_name.clone() }
    }
}

/// The fully qualified ref name of a local branch.
fn refname_local(name: &String) -> (r: String)
    ensures
        r@ == "refs/heads/"@ + name@,
{
    String::from_str("refs/heads/").concat(name.as_str())
}

/// The fully qualified ref name of a remote-tracking branch.
fn refname_remote(name: &String) -> (r: String)
    ensures
        r@ == "refs/remotes/"@ + name@,
{
    String::from_str("refs/remotes/").concat(name.as_str())
}

/// The adapter: the open repository with the branch names listed at startup.
/// The candidate set of a session is these two lists, fixed at construction.
pub struct GitManager {
    pub repo: git2::Repository,
    pub local_branches: Vec<String>,
    pub remote_branches: Vec<String>,
}

impl GitManager {
    /// Open the repository the environment designates and list its branches.
    /// Failure here is fatal: the adapter cannot exist without a usable
    /// repository.
    pub fn new() -> (r: Result<GitManager, GitError>)
        ensures
            r is Err ==> r->Err_0 is RepositoryUnavailable,
    {
        let repo = match open_repository() {
            Ok(re) => re,
            Err(e) => {
                return Err(e);
            },
        };
        let local_branches = match list_branch_names(&repo, true) {
            Ok(v) => v,
            Err(e) => {
                return Err(GitError::RepositoryUnavailable(e.message()));
            },
        };
        let remote_branches = match list_branch_names(&repo, false) {
            Ok(v) => v,
            Err(e) => {
                return Err(GitError::RepositoryUnavailable(e.message()));
            },
        };
        Ok(GitManager { repo, local_branches, remote_branches })
    }

    /// Resolve a branch name and check it out. The outcome follows the
    /// four-way plan: a local name lands on its local branch; a fresh remote
    /// name lands on a new tracking branch named by its local part; a remote
    /// name whose local counterpart exists lands either on that local branch
    /// (identical commits) or detached on the remote ref (diverged). A name
    /// that is neither local nor holds a `/` is rejected as malformed, and
    /// only such a name is.
    pub fn checkout(&self, branch_name: &String) -> (r: Result<Checkout, GitError>)
        ensures
            r is Ok ==> checkout_matches_plan(
                r->Ok_0,
                spec_plan(branch_name@, self.local_branches.deep_view()),
            ),
            (r is Err && r->Err_0 is MalformedRemoteName) <==> spec_plan(
                branch_name@,
                self.local_branches.deep_view(),
            ) is Malformed,
            r is Err ==> !(r->Err_0 is RepositoryUnavailable),
    {
        match plan_for(branch_name, &self.local_branches) {
            CheckoutPlan::UseLocal { local } => self.checkout_local(&local),
            CheckoutPlan::Malformed => Err(GitError::MalformedRemoteName),
            CheckoutPlan::CreateTracking { remote, local } => self.checkout_remote_with_tracking(
                &remote,
                &local,
            ),
            CheckoutPlan::CompareWithLocal { remote, local } => self.checkout_diverged(
                &remote,
                &local,
            ),
        }
    }

    /// Check out an existing local branch.
    fn checkout_local(&self, branch_name: &String) -> (r: Result<Checkout, GitError>)
        ensures
            r is Ok ==> r->Ok_0.branch_name@ == branch_name@ && r->Ok_0.checkout_type is LOCAL,
            r is Err ==> is_backend_error(r->Err_0),
    {
        match safe_checkout_local_ref(&self.repo, branch_name.as_str()) {
            Ok(_) => Ok(Checkout::new(branch_name.clone(), CheckoutType::LOCAL)),
            Err(e) => Err(e),
        }
    }

    /// Create a local branch tracking the remote ref, then check it out.
    fn checkout_remote_with_tracking(
        &self,
        branch_name: &String,
        local_branch_name: &String,
    ) -> (r: Result<Checkout, GitError>)
        ensures
            r is Ok ==> r->Ok_0.branch_name@ == local_branch_name@ && r->Ok_0.checkout_type
                is LOCAL,
            r is Err ==> is_backend_error(r->Err_0),
    {
        match create_tracking_branch(
            &self.repo,
            branch_name.as_str(),
            local_branch_name.as_str(),
        ) {
            Ok(_) => {},
            Err(e) => {
                return Err(e);
            },
        }
        self.checkout_local(local_branch_name)
    }

    /// Check out the remote ref's content directly, leaving HEAD detached;
    /// the local branch is not touched.
    fn checkout_remote_no_tracking(&self, branch_name: &String) -> (r: Result<Checkout, GitError>)
        ensures
            r is Ok ==> r->Ok_0.branch_name@ == branch_name@ && r->Ok_0.checkout_type is REMOTE,
            r is Err ==> is_backend_error(r->Err_0),
    {
        match safe_checkout_detached(&self.repo, branch_name.as_str()) {
            Ok(_) => Ok(Checkout::new(branch_name.clone(), CheckoutType::REMOTE)),
            Err(e) => Err(e),
        }
    }

    /// A remote name whose local counterpart exists: compare the two commit
    /// identities and follow the divergence plan.
    fn checkout_diverged(
        &self,
        branch_name: &String,
        local_branch_name: &String,
    ) -> (r: Result<Checkout, GitError>)
        ensures
            r is Ok ==> (r->Ok_0.branch_name@ == local_branch_name@ && r->Ok_0.checkout_type
                is LOCAL) || (r->Ok_0.branch_name@ == branch_name@ && r->Ok_0.checkout_type
                is REMOTE),
            r is Err ==> is_backend_error(r->Err_0),
    {
        let local_ref = refname_local(local_branch_name);
        let remote_ref = refname_remote(branch_name);
        let local_id = match resolve_commit_id(&self.repo, local_ref.as_str()) {
            Ok(v) => v,
            Err(e) => {
                return Err(e);
            },
        };
        let remote_id = match resolve_commit_id(&self.repo, remote_ref.as_str()) {
            Ok(v) => v,
            Err(e) => {
                return Err(e);
            },
        };
        match divergence_plan(branch_name, local_branch_name, &local_id, &remote_id) {
            DivergencePlan::CheckoutLocal { local } => self.checkout_local(&local),
            DivergencePlan::CheckoutDetached { remote } => self.checkout_remote_no_tracking(
                &remote,
            ),
        }
    }
}

} // verus!

