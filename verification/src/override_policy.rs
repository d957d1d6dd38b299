//! What a request may change about the settings that a thread runs with.
use vstd::prelude::*;

use crate::config::{AgentConfig, AgentConfigModel, PermissionProfile};
use crate::data::Duplicate;
use crate::error::AppServerError;
use crate::paths;
use crate::protocol::TurnContextOverrides;
use crate::state::{ThreadSnapshot, ThreadSnapshotModel};
use crate::text;

verus! {

/// The settings that a request asks for.
#[derive(Debug, Clone, PartialEq, Eq)]
pub struct RuntimeOverrides {
    pub workspace_root: Option<String>,
    pub cwd: Option<String>,
    pub permission_profile: Option<PermissionProfile>,
}

impl Default for RuntimeOverrides {
    /// Nothing is asked for.
    fn default() -> (res: Self)
        ensures
            res == (RuntimeOverrides {
                workspace_root: None,
                cwd: None,
                permission_profile: None,
            }),
    {
        RuntimeOverrides { workspace_root: None, cwd: None, permission_profile: None }
    }
}

/// The rules on what a request may change.
pub struct OverridePolicy;

/// The settings `base` in the workspace at `root`, where the agent also starts.
pub open spec fn in_workspace(base: AgentConfigModel, root: Seq<char>) -> AgentConfigModel {
    AgentConfigModel { workspace_root: root, cwd: root, ..base }
}

/// The settings `base` with what a request asks for.
pub open spec fn overridden(
    base: AgentConfigModel,
    root: Seq<char>,
    cwd: Option<Seq<char>>,
    permission_profile: Option<PermissionProfile>,
) -> AgentConfigModel {
    AgentConfigModel {
        workspace_root: root,
        cwd: match cwd {
            Some(cwd) => cwd,
            None => root,
        },
        permission_profile: match permission_profile {
            Some(permission_profile) => permission_profile,
            None => base.permission_profile,
        },
        ..base
    }
}

/// Whether `error` says that a working directory lies outside its workspace.
pub open spec fn is_outside(error: AppServerError) -> bool {
    error.is_invalid("cwd must stay within workspace_root"@)
}

/// Whether `error` says that this permission profile is not supported.
pub open spec fn is_unsupported(error: AppServerError, permission_profile: PermissionProfile) -> bool {
    error.is_invalid("unsupported permission profile: "@ + permission_profile.name())
}

/// The path that a request names as its workspace, as it is read from `current_dir`; without one,
/// that of the settings.
pub fn workspace_candidate(
    base: &AgentConfig,
    workspace_root: &Option<String>,
    current_dir: &str,
) -> (res: String)
    ensures
        res@ == match *workspace_root {
            Some(raw) => paths::joined(current_dir@, raw@),
            None => base.workspace_root@,
        },
{
    match workspace_root {
        Some(raw) => paths::join(current_dir, raw.as_str()),
        None => base.workspace_root.clone(),
    }
}

/// The path that a request names as its working directory, as it is read from the workspace.
pub fn cwd_candidate(root: &str, raw_cwd: &str) -> (res: String)
    ensures
        res@ == paths::joined(root@, raw_cwd@),
{
    paths::join(root, raw_cwd)
}

/// Takes `path`, free of links and detours, as a working directory, where it lies in the
/// workspace at `root`.
pub fn canonicalize_from_root(root: &str, path: String) -> (res: Result<String, AppServerError>)
    ensures
        match res {
            Ok(cwd) => paths::is_within(path@, root@) && cwd == path,
            Err(error) => !paths::is_within(path@, root@) && is_outside(error),
        },
{
    if paths::within(path.as_str(), root) {
        Ok(path)
    } else {
        Err(AppServerError::invalid("cwd must stay within workspace_root"))
    }
}

/// Turns a permission profile down that is not supported.
pub fn ensure_supported_permission_profile(permission_profile: PermissionProfile) -> (res: Result<
    (),
    AppServerError,
>)
    ensures
        match res {
            Ok(_) => permission_profile.supported(),
            Err(error) => !permission_profile.supported() && is_unsupported(
                error,
                permission_profile,
            ),
        },
{
    if permission_profile.is_supported() {
        Ok(())
    } else {
        Err(
            AppServerError::InvalidRequest(
                text::concat2("unsupported permission profile: ", permission_profile.as_str()),
            ),
        )
    }
}

impl OverridePolicy {
    /// The settings that a new thread starts with. See `apply`.
    pub fn merge_thread_start(
        base: &AgentConfig,
        overrides: RuntimeOverrides,
        root: String,
        cwd: Option<String>,
    ) -> (res: Result<AgentConfig, AppServerError>)
        requires
            overrides.cwd is Some == cwd is Some,
        ensures
            Self::is_applied(res, base.deep_view(), overrides, root@, cwd.deep_view()),
    {
        Self::apply(base, overrides, root, cwd)
    }

    /// The settings that a thread is read with.
    pub fn merge_thread_read(base: &AgentConfig, root: String) -> (res: AgentConfig)
        ensures
            res.deep_view() == in_workspace(base.deep_view(), root@),
    {
        Self::apply_workspace_only(base, root)
    }

    /// The settings that a thread is resumed with.
    pub fn merge_thread_resume(base: &AgentConfig, root: String) -> (res: AgentConfig)
        ensures
            res.deep_view() == in_workspace(base.deep_view(), root@),
    {
        Self::apply_workspace_only(base, root)
    }

    /// The settings that a turn starts with.
    pub fn merge_turn_start(base: &AgentConfig, root: String) -> (res: AgentConfig)
        ensures
            res.deep_view() == in_workspace(base.deep_view(), root@),
    {
        Self::apply_workspace_only(base, root)
    }

    /// The settings that events are replayed with.
    pub fn merge_events_replay(base: &AgentConfig, root: String) -> (res: AgentConfig)
        ensures
            res.deep_view() == in_workspace(base.deep_view(), root@),
    {
        Self::apply_workspace_only(base, root)
    }

    /// Whether `res` is what comes of asking for these settings: the working directory must lie
    /// in the workspace, and the permission profile must be supported.
    pub open spec fn is_applied(
        res: Result<AgentConfig, AppServerError>,
        base: AgentConfigModel,
        overrides: RuntimeOverrides,
        root: Seq<char>,
        cwd: Option<Seq<char>>,
    ) -> bool {
        let config = overridden(base, root, cwd, overrides.permission_profile);
        match res {
            Ok(applied) => {
                &&& cwd matches Some(cwd) ==> paths::is_within(cwd, root)
                &&& config.permission_profile.supported()
                &&& applied.deep_view() == config
            },
            Err(error) => if cwd is Some && !paths::is_within(cwd->0, root) {
                is_outside(error)
            } else {
                !config.permission_profile.supported() && is_unsupported(
                    error,
                    config.permission_profile,
                )
            },
        }
    }

    /// The settings `base` with what a request asks for. `root` and `cwd` are the workspace and
    /// the working directory that it names, free of links and detours.
    pub fn apply(
        base: &AgentConfig,
        overrides: RuntimeOverrides,
        root: String,
        cwd: Option<String>,
    ) -> (res: Result<AgentConfig, AppServerError>)
        requires
            overrides.cwd is Some == cwd is Some,
        ensures
            Self::is_applied(res, base.deep_view(), overrides, root@, cwd.deep_view()),
    {
        let mut config = base.duplicate();
        config.workspace_root = root.clone();
        config.cwd = root.clone();
        if let Some(cwd) = cwd {
            match canonicalize_from_root(root.as_str(), cwd) {
                Ok(cwd) => {
                    config.cwd = cwd;
                },
                Err(error) => return Err(error),
            }
        }
        if let Some(permission_profile) = overrides.permission_profile {
            config.permission_profile = permission_profile;
        }
        match ensure_supported_permission_profile(config.permission_profile) {
            Ok(_) => Ok(config),
            Err(error) => Err(error),
        }
    }

    /// The settings `base` in the workspace at `root`.
    pub fn apply_workspace_only(base: &AgentConfig, root: String) -> (res: AgentConfig)
        ensures
            res.deep_view() == in_workspace(base.deep_view(), root@),
    {
        let mut config = base.duplicate();
        config.workspace_root = root.clone();
        config.cwd = root;
        config
    }

    /// The thread `snapshot` with the working directory that a turn asks for: `cwd`, free of
    /// links and detours.
    pub fn apply_turn_context(
        snapshot: &ThreadSnapshot,
        overrides: &TurnContextOverrides,
        cwd: Option<String>,
    ) -> (res: Result<ThreadSnapshot, AppServerError>)
        requires
            overrides.cwd is Some == cwd is Some,
        ensures
            match res {
                Ok(turn) => match cwd {
                    Some(cwd) => {
                        &&& paths::is_within(cwd@, snapshot.workspace_root@)
                        &&& turn.deep_view() == (ThreadSnapshotModel {
                            cwd: cwd@,
                            ..snapshot.deep_view()
                        })
                    },
                    None => turn.deep_view() == snapshot.deep_view(),
                },
                Err(error) => {
                    &&& cwd matches Some(cwd)
                    &&& !paths::is_within(cwd@, snapshot.workspace_root@)
                    &&& is_outside(error)
                },
            },
    {
        let mut turn = snapshot.duplicate();
        if let Some(cwd) = cwd {
            match canonicalize_from_root(snapshot.workspace_root.as_str(), cwd) {
                Ok(cwd) => {
                    turn.cwd = cwd;
                },
                Err(error) => return Err(error),
            }
        }
        Ok(turn)
    }
}

/// Whatever a request asks for, the agent that it gets works in its workspace, under a permission
/// profile that is supported.
pub proof fn agents_stay_in_their_workspace(
    res: Result<AgentConfig, AppServerError>,
    base: AgentConfigModel,
    overrides: RuntimeOverrides,
    root: Seq<char>,
    cwd: Option<Seq<char>>,
)
    requires
        OverridePolicy::is_applied(res, base, overrides, root, cwd),
    ensures
        res matches Ok(config) ==> {
            &&& paths::is_within(config.cwd@, config.workspace_root@)
            &&& config.permission_profile.supported()
        },
{
    if let Ok(config) = res {
        assert(config.deep_view() == overridden(base, root, cwd, overrides.permission_profile));
        assert(config.deep_view().cwd == config.cwd@);
    }
}

} // verus!
