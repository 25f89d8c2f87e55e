//! Roles: one flat role name per user and scope, where a scope is either
//! the whole shared root or one project under it.
//!
//! A role given for a project overrides the global one; a user with neither
//! is a viewer. Which role names exist is for the caller to decide.

use vstd::prelude::*;
use crate::text::text_eq;

verus! {

/// A user's role within one scope.
#[derive(Debug, Clone)]
pub struct Permission {
    pub user: String,
    pub role: String,
}

pub struct PermissionView {
    pub user: Seq<char>,
    pub role: Seq<char>,
}

impl View for Permission {
    type V = PermissionView;

    open spec fn view(&self) -> PermissionView {
        PermissionView { user: self.user@, role: self.role@ }
    }
}

/// The views of a list of roles.
pub open spec fn permissions_view(list: Seq<Permission>) -> Seq<PermissionView> {
    list.map_values(|p: Permission| p@)
}

/// The roles given for one project.
#[derive(Debug, Clone)]
pub struct ProjectPermission {
    pub project_path: String,
    pub permissions: Vec<Permission>,
}

pub struct ProjectPermissionView {
    pub project_path: Seq<char>,
    pub permissions: Seq<PermissionView>,
}

impl View for ProjectPermission {
    type V = ProjectPermissionView;

    open spec fn view(&self) -> ProjectPermissionView {
        ProjectPermissionView {
            project_path: self.project_path@,
            permissions: permissions_view(self.permissions@),
        }
    }
}

/// The views of a list of project scopes.
pub open spec fn projects_view(list: Seq<ProjectPermission>) -> Seq<ProjectPermissionView> {
    list.map_values(|p: ProjectPermission| p@)
}

/// The whole permissions document.
#[derive(Debug, Clone)]
pub struct PermissionsConfig {
    pub global: Vec<Permission>,
    pub projects: Vec<ProjectPermission>,
}

pub struct PermissionsConfigView {
    pub global: Seq<PermissionView>,
    pub projects: Seq<ProjectPermissionView>,
}

impl View for PermissionsConfig {
    type V = PermissionsConfigView;

    open spec fn view(&self) -> PermissionsConfigView {
        PermissionsConfigView {
            global: permissions_view(self.global@),
            projects: projects_view(self.projects@),
        }
    }
}

/// The role of everyone who has been given none.
pub open spec fn default_role() -> Seq<char> {
    "viewer"@
}

/// The position of the first entry for `user`, or the length of the list if
/// there is none.
pub open spec fn user_position(list: Seq<PermissionView>, user: Seq<char>) -> int
    decreases list.len(),
{
    if list.len() == 0 {
        0
    } else if list[0].user == user {
        0
    } else {
        1 + user_position(list.drop_first(), user)
    }
}

/// The role that a list of roles gives `user`: that of the first entry in
/// the user's name.
pub open spec fn role_in(list: Seq<PermissionView>, user: Seq<char>) -> Option<Seq<char>> {
    let k = user_position(list, user);
    if k < list.len() {
        Some(list[k].role)
    } else {
        None
    }
}

/// The role that the project scopes give `user` in `project`: that of the
/// first scope for the project that names the user.
pub open spec fn project_role(
    projects: Seq<ProjectPermissionView>,
    project: Seq<char>,
    user: Seq<char>,
) -> Option<Seq<char>>
    decreases projects.len(),
{
    if projects.len() == 0 {
        None
    } else if projects[0].project_path == project && role_in(projects[0].permissions, user)
        is Some {
        role_in(projects[0].permissions, user)
    } else {
        project_role(projects.drop_first(), project, user)
    }
}

/// The role of `user` where no project role applies.
pub open spec fn global_role(cfg: PermissionsConfigView, user: Seq<char>) -> Seq<char> {
    match role_in(cfg.global, user) {
        Some(r) => r,
        None => default_role(),
    }
}

/// The role of `user`, in `project` if one is named: the project's own role
/// for the user, else the global one, else the default.
pub open spec fn role_of(
    cfg: PermissionsConfigView,
    user: Seq<char>,
    project: Option<Seq<char>>,
) -> Seq<char> {
    match project {
        Some(pp) => match project_role(cfg.projects, pp, user) {
            Some(r) => r,
            None => global_role(cfg, user),
        },
        None => global_role(cfg, user),
    }
}

proof fn lemma_user_position_bounds(list: Seq<PermissionView>, user: Seq<char>)
    ensures
        0 <= user_position(list, user) <= list.len(),
        user_position(list, user) < list.len() ==> list[user_position(list, user)].user == user,
        forall|j: int| 0 <= j < user_position(list, user) ==> (#[trigger] list[j]).user != user,
    decreases list.len(),
{
    if list.len() > 0 && list[0].user != user {
        let rest = list.drop_first();
        lemma_user_position_bounds(rest, user);
        assert forall|j: int| 0 <= j < user_position(list, user) implies (#[trigger] list[j]).user
            != user by {
            if j > 0 {
                assert(list[j] == rest[j - 1]);
            }
        }
    }
}

/// The first position at or after which nothing lies before it in the
/// user's name is the user's position.
proof fn lemma_user_position_is(list: Seq<PermissionView>, user: Seq<char>, k: int)
    requires
        0 <= k <= list.len(),
        forall|j: int| 0 <= j < k ==> (#[trigger] list[j]).user != user,
        k < list.len() ==> list[k].user == user,
    ensures
        user_position(list, user) == k,
    decreases list.len(),
{
    if list.len() > 0 && k > 0 {
        let rest = list.drop_first();
        assert(list[0].user != user);
        assert forall|j: int| 0 <= j < k - 1 implies (#[trigger] rest[j]).user != user by {
            assert(rest[j] == list[j + 1]);
        }
        lemma_user_position_is(rest, user, k - 1);
    }
}

/// Finds the first entry for `user`.
fn find_user(list: &Vec<Permission>, user: &str) -> (r: usize)
    ensures
        r == user_position(permissions_view(list@), user@),
        r <= list@.len(),
{
    let mut i: usize = 0;
    while i < list.len()
        invariant
            i <= list@.len(),
            forall|j: int| 0 <= j < i ==> (#[trigger] permissions_view(list@)[j]).user != user@,
        decreases list@.len() - i,
    {
        if text_eq(list[i].user.as_str(), user) {
            proof {
                lemma_user_position_is(permissions_view(list@), user@, i as int);
            }
            return i;
        }
        i += 1;
    }
    proof {
        lemma_user_position_is(permissions_view(list@), user@, i as int);
    }
    i
}

/// The role of `user`, in `proj` if one is named.
pub fn get_user_role(cfg: &PermissionsConfig, user: &str, proj: Option<&str>) -> (r: String)
    ensures
        r@ == role_of(
            cfg@,
            user@,
            match proj {
                Some(pp) => Some(pp@),
                None => None,
            },
        ),
{
    match proj {
        Some(pp) => {
            let mut i: usize = 0;
            assert(projects_view(cfg.projects@).skip(0) =~= projects_view(cfg.projects@));
            while i < cfg.projects.len()
                invariant
                    i <= cfg.projects@.len(),
                    proj == Some(pp),
                    project_role(projects_view(cfg.projects@), pp@, user@) == project_role(
                        projects_view(cfg.projects@).skip(i as int),
                        pp@,
                        user@,
                    ),
                decreases cfg.projects@.len() - i,
            {
                let p = &cfg.projects[i];
                proof {
                    let rest = projects_view(cfg.projects@).skip(i as int);
                    assert(rest[0] == p@);
                    assert(rest.drop_first() =~= projects_view(cfg.projects@).skip(i + 1));
                }
                if text_eq(p.project_path.as_str(), pp) {
                    let k = find_user(&p.permissions, user);
                    if k < p.permissions.len() {
                        proof {
                            let rest = projects_view(cfg.projects@).skip(i as int);
                            assert(permissions_view(p.permissions@)[k as int]
                                == p.permissions@[k as int]@);
                            assert(role_in(rest[0].permissions, user@) == Some(
                                p.permissions@[k as int].role@,
                            ));
                        }
                        return p.permissions[k].role.clone();
                    }
                }
                i += 1;
            }
        },
        None => {},
    }
    let k = find_user(&cfg.global, user);
    proof {
        if proj is Some {
            assert(projects_view(cfg.projects@).skip(cfg.projects@.len() as int).len() == 0);
        }
        if k < cfg.global@.len() {
            assert(permissions_view(cfg.global@)[k as int] == cfg.global@[k as int]@);
        }
    }
    if k < cfg.global.len() {
        cfg.global[k].role.clone()
    } else {
        String::from_str("viewer")
    }
}

/// A list of roles in which `user` has `role`: the user's first entry takes
/// the role, or a new entry is added at the end.
pub open spec fn with_role(list: Seq<PermissionView>, user: Seq<char>, role: Seq<char>) -> Seq<
    PermissionView,
> {
    let k = user_position(list, user);
    if k < list.len() {
        list.update(k, PermissionView { user: list[k].user, role })
    } else {
        list.push(PermissionView { user, role })
    }
}

/// The position of the first scope for `project`, or the length of the list
/// if there is none.
pub open spec fn project_position(projects: Seq<ProjectPermissionView>, project: Seq<char>) -> int
    decreases projects.len(),
{
    if projects.len() == 0 {
        0
    } else if projects[0].project_path == project {
        0
    } else {
        1 + project_position(projects.drop_first(), project)
    }
}

/// The project scopes in which `user` has `role` in `project`: the first
/// scope for the project takes the role, or a new scope is added at the
/// end.
pub open spec fn with_project_role(
    projects: Seq<ProjectPermissionView>,
    project: Seq<char>,
    user: Seq<char>,
    role: Seq<char>,
) -> Seq<ProjectPermissionView> {
    let k = project_position(projects, project);
    if k < projects.len() {
        projects.update(
            k,
            ProjectPermissionView {
                project_path: projects[k].project_path,
                permissions: with_role(projects[k].permissions, user, role),
            },
        )
    } else {
        projects.push(
            ProjectPermissionView {
                project_path: project,
                permissions: seq![PermissionView { user, role }],
            },
        )
    }
}

/// The document in which `user` has `role`, in `project` if one is named
/// and globally otherwise. Nothing else changes.
pub open spec fn with_permission(
    cfg: PermissionsConfigView,
    user: Seq<char>,
    role: Seq<char>,
    project: Option<Seq<char>>,
) -> PermissionsConfigView {
    match project {
        Some(pp) => PermissionsConfigView {
            global: cfg.global,
            projects: with_project_role(cfg.projects, pp, user, role),
        },
        None => PermissionsConfigView {
            global: with_role(cfg.global, user, role),
            projects: cfg.projects,
        },
    }
}

proof fn lemma_project_position_is(
    projects: Seq<ProjectPermissionView>,
    project: Seq<char>,
    k: int,
)
    requires
        0 <= k <= projects.len(),
        forall|j: int| 0 <= j < k ==> (#[trigger] projects[j]).project_path != project,
        k < projects.len() ==> projects[k].project_path == project,
    ensures
        project_position(projects, project) == k,
    decreases projects.len(),
{
    if projects.len() > 0 && k > 0 {
        let rest = projects.drop_first();
        assert(projects[0].project_path != project);
        assert forall|j: int| 0 <= j < k - 1 implies (#[trigger] rest[j]).project_path
            != project by {
            assert(rest[j] == projects[j + 1]);
        }
        lemma_project_position_is(rest, project, k - 1);
    }
}

proof fn lemma_project_position_bounds(projects: Seq<ProjectPermissionView>, project: Seq<char>)
    ensures
        0 <= project_position(projects, project) <= projects.len(),
        project_position(projects, project) < projects.len() ==> projects[project_position(
            projects,
            project,
        )].project_path == project,
        forall|j: int|
            0 <= j < project_position(projects, project) ==> (#[trigger] projects[j]).project_path
                != project,
    decreases projects.len(),
{
    if projects.len() > 0 && projects[0].project_path != project {
        let rest = projects.drop_first();
        lemma_project_position_bounds(rest, project);
        assert forall|j: int| 0 <= j < project_position(projects, project) implies (
        #[trigger] projects[j]).project_path != project by {
            if j > 0 {
                assert(projects[j] == rest[j - 1]);
            }
        }
    }
}

/// Gives `user` the `role` within one list of roles.
pub fn set_role(list: &mut Vec<Permission>, user: &str, role: &str)
    ensures
        permissions_view(final(list)@) == with_role(permissions_view(old(list)@), user@, role@),
{
    let k = find_user(list, user);
    let ghost before = permissions_view(list@);
    if k < list.len() {
        let kept = list[k].user.clone();
        let entry = Permission { user: kept, role: String::from_str(role) };
        list.remove(k);
        list.insert(k, entry);
        assert(permissions_view(list@) =~= before.update(
            k as int,
            PermissionView { user: before[k as int].user, role: role@ },
        ));
    } else {
        let entry = Permission { user: String::from_str(user), role: String::from_str(role) };
        list.push(entry);
        assert(permissions_view(list@) =~= before.push(PermissionView { user: user@, role: role@ }));
    }
}

/// Finds the first scope for `project`.
fn find_project(projects: &Vec<ProjectPermission>, project: &str) -> (r: usize)
    ensures
        r == project_position(projects_view(projects@), project@),
        r <= projects@.len(),
{
    let mut i: usize = 0;
    while i < projects.len()
        invariant
            i <= projects@.len(),
            forall|j: int|
                0 <= j < i ==> (#[trigger] projects_view(projects@)[j]).project_path != project@,
        decreases projects@.len() - i,
    {
        if text_eq(projects[i].project_path.as_str(), project) {
            proof {
                lemma_project_position_is(projects_view(projects@), project@, i as int);
            }
            return i;
        }
        i += 1;
    }
    proof {
        lemma_project_position_is(projects_view(projects@), project@, i as int);
    }
    i
}

/// Gives `user` the `role`, in `proj` if one is named and globally
/// otherwise. The scope of a project is created when the project has none.
pub fn set_user_permission(cfg: &mut PermissionsConfig, user: &str, role: &str, proj: Option<&str>)
    ensures
        final(cfg)@ == with_permission(
            old(cfg)@,
            user@,
            role@,
            match proj {
                Some(pp) => Some(pp@),
                None => None,
            },
        ),
{
    match proj {
        Some(pp) => {
            let k = find_project(&cfg.projects, pp);
            let ghost before = projects_view(cfg.projects@);
            if k < cfg.projects.len() {
                let mut scope = cfg.projects.remove(k);
                assert(scope@ == before[k as int]);
                set_role(&mut scope.permissions, user, role);
                cfg.projects.insert(k, scope);
                assert(projects_view(cfg.projects@) =~= before.update(
                    k as int,
                    ProjectPermissionView {
                        project_path: before[k as int].project_path,
                        permissions: with_role(before[k as int].permissions, user@, role@),
                    },
                ));
            } else {
                let mut permissions: Vec<Permission> = Vec::new();
                permissions.push(
                    Permission { user: String::from_str(user), role: String::from_str(role) },
                );
                let scope = ProjectPermission { project_path: String::from_str(pp), permissions };
                assert(scope@.permissions =~= seq![PermissionView { user: user@, role: role@ }]);
                cfg.projects.push(scope);
                assert(projects_view(cfg.projects@) =~= before.push(
                    ProjectPermissionView {
                        project_path: pp@,
                        permissions: seq![PermissionView { user: user@, role: role@ }],
                    },
                ));
            }
        },
        None => {
            set_role(&mut cfg.global, user, role);
        },
    }
}

impl PermissionsConfig {
    /// The document of a shared root that has none yet: no role is given,
    /// so everyone is a viewer.
    pub fn new() -> (r: PermissionsConfig)
        ensures
            r@.global.len() == 0,
            r@.projects.len() == 0,
    {
        PermissionsConfig { global: Vec::new(), projects: Vec::new() }
    }
}

/// No user has two entries in the list.
pub open spec fn unique_users(list: Seq<PermissionView>) -> bool {
    forall|i: int, j: int|
        0 <= i < j < list.len() ==> (#[trigger] list[i]).user != (#[trigger] list[j]).user
}

/// At most one role per user and scope: no project has two scopes, and no
/// user has two entries within a scope.
pub open spec fn well_formed(cfg: PermissionsConfigView) -> bool {
    &&& unique_users(cfg.global)
    &&& forall|i: int|
        0 <= i < cfg.projects.len() ==> unique_users((#[trigger] cfg.projects[i]).permissions)
    &&& forall|i: int, j: int|
        0 <= i < j < cfg.projects.len() ==> (#[trigger] cfg.projects[i]).project_path != (
        #[trigger] cfg.projects[j]).project_path
}

/// Whether a list of roles has an entry for `user`.
pub open spec fn names_user(list: Seq<PermissionView>, user: Seq<char>) -> bool {
    exists|j: int| 0 <= j < list.len() && (#[trigger] list[j]).user == user
}

/// Whether some scope for `project` has an entry for `user`.
pub open spec fn project_names_user(
    projects: Seq<ProjectPermissionView>,
    project: Seq<char>,
    user: Seq<char>,
) -> bool {
    exists|i: int|
        0 <= i < projects.len() && (#[trigger] projects[i]).project_path == project && names_user(
            projects[i].permissions,
            user,
        )
}

proof fn lemma_role_in_none(list: Seq<PermissionView>, user: Seq<char>)
    ensures
        role_in(list, user) is None <==> !names_user(list, user),
{
    lemma_user_position_bounds(list, user);
    if names_user(list, user) {
        let j = choose|j: int| 0 <= j < list.len() && (#[trigger] list[j]).user == user;
        assert(list[j].user == user);
    }
}

proof fn lemma_project_role_first(
    projects: Seq<ProjectPermissionView>,
    project: Seq<char>,
    user: Seq<char>,
    k: int,
)
    requires
        0 <= k < projects.len(),
        projects[k].project_path == project,
        role_in(projects[k].permissions, user) is Some,
        forall|j: int|
            0 <= j < k ==> !((#[trigger] projects[j]).project_path == project && role_in(
                projects[j].permissions,
                user,
            ) is Some),
    ensures
        project_role(projects, project, user) == role_in(projects[k].permissions, user),
    decreases projects.len(),
{
    if k > 0 {
        let rest = projects.drop_first();
        assert(!(projects[0].project_path == project && role_in(projects[0].permissions, user)
            is Some));
        assert forall|j: int| 0 <= j < k - 1 implies !((#[trigger] rest[j]).project_path == project
            && role_in(rest[j].permissions, user) is Some) by {
            assert(rest[j] == projects[j + 1]);
        }
        assert(rest[k - 1] == projects[k]);
        lemma_project_role_first(rest, project, user, k - 1);
    }
}

proof fn lemma_project_role_none(
    projects: Seq<ProjectPermissionView>,
    project: Seq<char>,
    user: Seq<char>,
)
    requires
        forall|j: int|
            0 <= j < projects.len() ==> !((#[trigger] projects[j]).project_path == project
                && role_in(projects[j].permissions, user) is Some),
    ensures
        project_role(projects, project, user) is None,
    decreases projects.len(),
{
    if projects.len() > 0 {
        let rest = projects.drop_first();
        assert(!(projects[0].project_path == project && role_in(projects[0].permissions, user)
            is Some));
        assert forall|j: int| 0 <= j < rest.len() implies !((#[trigger] rest[j]).project_path
            == project && role_in(rest[j].permissions, user) is Some) by {
            assert(rest[j] == projects[j + 1]);
        }
        lemma_project_role_none(rest, project, user);
    }
}

proof fn lemma_with_role_gives(list: Seq<PermissionView>, user: Seq<char>, role: Seq<char>)
    ensures
        role_in(with_role(list, user, role), user) == Some(role),
{
    lemma_user_position_bounds(list, user);
    let k = user_position(list, user);
    let after = with_role(list, user, role);
    assert forall|j: int| 0 <= j < k implies (#[trigger] after[j]).user != user by {
        assert(after[j] == list[j]);
    }
    lemma_user_position_is(after, user, k);
}

/// Resolution order. In a well-formed document, a role listed for the user
/// in the project's scope is the user's role in that project, whatever the
/// global list says.
pub proof fn law_project_role_overrides(
    cfg: PermissionsConfigView,
    user: Seq<char>,
    project: Seq<char>,
    i: int,
    j: int,
)
    requires
        well_formed(cfg),
        0 <= i < cfg.projects.len(),
        cfg.projects[i].project_path == project,
        0 <= j < cfg.projects[i].permissions.len(),
        cfg.projects[i].permissions[j].user == user,
    ensures
        role_of(cfg, user, Some(project)) == cfg.projects[i].permissions[j].role,
{
    let list = cfg.projects[i].permissions;
    assert(unique_users(list));
    assert forall|k: int| 0 <= k < j implies (#[trigger] list[k]).user != user by {}
    lemma_user_position_is(list, user, j);
    assert forall|k: int| 0 <= k < i implies !((#[trigger] cfg.projects[k]).project_path
        == project && role_in(cfg.projects[k].permissions, user) is Some) by {}
    lemma_project_role_first(cfg.projects, project, user, i);
}

/// Resolution order. Where no scope of the project lists the user, and
/// where no project is named, a role listed for the user globally is the
/// user's role.
pub proof fn law_global_role_applies(
    cfg: PermissionsConfigView,
    user: Seq<char>,
    project: Option<Seq<char>>,
    j: int,
)
    requires
        well_formed(cfg),
        project is Some ==> !project_names_user(cfg.projects, project->0, user),
        0 <= j < cfg.global.len(),
        cfg.global[j].user == user,
    ensures
        role_of(cfg, user, project) == cfg.global[j].role,
{
    assert forall|k: int| 0 <= k < j implies (#[trigger] cfg.global[k]).user != user by {}
    lemma_user_position_is(cfg.global, user, j);
    if project is Some {
        let pp = project->0;
        assert forall|k: int| 0 <= k < cfg.projects.len() implies !((
        #[trigger] cfg.projects[k]).project_path == pp && role_in(cfg.projects[k].permissions, user)
            is Some) by {
            lemma_role_in_none(cfg.projects[k].permissions, user);
        }
        lemma_project_role_none(cfg.projects, pp, user);
    }
}

/// Resolution order. A user whom neither the project's scopes nor the
/// global list name is a viewer.
pub proof fn law_default_role_is_viewer(
    cfg: PermissionsConfigView,
    user: Seq<char>,
    project: Option<Seq<char>>,
)
    requires
        project is Some ==> !project_names_user(cfg.projects, project->0, user),
        !names_user(cfg.global, user),
    ensures
        role_of(cfg, user, project) == "viewer"@,
{
    lemma_role_in_none(cfg.global, user);
    if project is Some {
        let pp = project->0;
        assert forall|k: int| 0 <= k < cfg.projects.len() implies !((
        #[trigger] cfg.projects[k]).project_path == pp && role_in(cfg.projects[k].permissions, user)
            is Some) by {
            lemma_role_in_none(cfg.projects[k].permissions, user);
        }
        lemma_project_role_none(cfg.projects, pp, user);
    }
}

/// A role that has been set is the role that is read, in the same scope.
pub proof fn law_set_then_get(
    cfg: PermissionsConfigView,
    user: Seq<char>,
    role: Seq<char>,
    project: Option<Seq<char>>,
)
    ensures
        role_of(with_permission(cfg, user, role, project), user, project) == role,
{
    match project {
        Some(pp) => {
            let projects = cfg.projects;
            let after = with_project_role(projects, pp, user, role);
            lemma_project_position_bounds(projects, pp);
            let k = project_position(projects, pp);
            if k < projects.len() {
                lemma_with_role_gives(projects[k].permissions, user, role);
            } else {
                lemma_with_role_gives(Seq::empty(), user, role);
                assert(with_role(Seq::empty(), user, role) =~= seq![PermissionView { user, role }]);
            }
            assert forall|j: int| 0 <= j < k implies !((#[trigger] after[j]).project_path == pp
                && role_in(after[j].permissions, user) is Some) by {
                assert(after[j] == projects[j]);
            }
            lemma_project_role_first(after, pp, user, k);
        },
        None => {
            lemma_with_role_gives(cfg.global, user, role);
        },
    }
}

proof fn lemma_with_role_unique(list: Seq<PermissionView>, user: Seq<char>, role: Seq<char>)
    requires
        unique_users(list),
    ensures
        unique_users(with_role(list, user, role)),
{
    lemma_user_position_bounds(list, user);
    let after = with_role(list, user, role);
    let k = user_position(list, user);
    assert forall|i: int, j: int| 0 <= i < j < after.len() implies (#[trigger] after[i]).user != (
    #[trigger] after[j]).user by {
        if k < list.len() {
            assert(after[i].user == list[i].user);
            assert(after[j].user == list[j].user);
        } else {
            assert(after[i] == list[i]);
            if j < list.len() {
                assert(after[j] == list[j]);
            }
        }
    }
}

/// Setting a role keeps the document well formed: still at most one role
/// per user and scope.
pub proof fn law_set_keeps_well_formed(
    cfg: PermissionsConfigView,
    user: Seq<char>,
    role: Seq<char>,
    project: Option<Seq<char>>,
)
    requires
        well_formed(cfg),
    ensures
        well_formed(with_permission(cfg, user, role, project)),
{
    let after = with_permission(cfg, user, role, project);
    match project {
        Some(pp) => {
            lemma_project_position_bounds(cfg.projects, pp);
            let k = project_position(cfg.projects, pp);
            if k < cfg.projects.len() {
                lemma_with_role_unique(cfg.projects[k].permissions, user, role);
            }
            assert forall|i: int| 0 <= i < after.projects.len() implies unique_users(
                (#[trigger] after.projects[i]).permissions,
            ) by {
                if i != k {
                    assert(after.projects[i] == cfg.projects[i]);
                }
            }
            assert forall|i: int, j: int| 0 <= i < j < after.projects.len() implies (
            #[trigger] after.projects[i]).project_path != (
            #[trigger] after.projects[j]).project_path by {
                if k < cfg.projects.len() {
                    assert(after.projects[i].project_path == cfg.projects[i].project_path);
                    assert(after.projects[j].project_path == cfg.projects[j].project_path);
                } else {
                    assert(after.projects[i] == cfg.projects[i]);
                    if j < cfg.projects.len() {
                        assert(after.projects[j] == cfg.projects[j]);
                    }
                }
            }
        },
        None => {
            lemma_with_role_unique(cfg.global, user, role);
        },
    }
}

} // verus!
