//! Logging in to the cluster of a region: what has to be done, decided
//! from the configuration and from what the login tool reports.

use vstd::prelude::*;
use crate::error::{result_view, ShipcatError, ShipcatErrorView};
use crate::strings::{
    contains_text, is_substring, join2, join3, lines_of, text_contains, text_lines,
};
use crate::structs::{Cluster, ClusterView, Config, ConfigView, Region, RegionView};

verus! {

/// The first cluster that runs the named region.
pub open spec fn owning_cluster(clusters: Seq<ClusterView>, region: Seq<char>) -> Option<ClusterView>
    decreases clusters.len(),
{
    if clusters.len() == 0 {
        None
    } else if clusters[0].regions.contains(region) {
        Some(clusters[0])
    } else {
        owning_cluster(clusters.drop_first(), region)
    }
}

/// Finds the cluster that runs a region.
pub fn find_owning_cluster<'a>(conf: &'a Config, region: &Region) -> (found: Option<&'a Cluster>)
    ensures
        found.deep_view() == owning_cluster(conf.deep_view().clusters, region.deep_view().name),
{
    let ghost all = conf.deep_view().clusters;
    let mut i: usize = 0;
    assert(all.skip(0) =~= all);
    while i < conf.clusters.len()
        invariant
            i <= conf.clusters.len(),
            all == conf.clusters.deep_view(),
            owning_cluster(all, region.deep_view().name) == owning_cluster(
                all.skip(i as int),
                region.deep_view().name,
            ),
        decreases conf.clusters.len() - i,
    {
        assert(all.skip(i as int)[0] == all[i as int]);
        if contains_text(&conf.clusters[i].regions, region.name.as_str()) {
            return Some(&conf.clusters[i]);
        }
        assert(all.skip(i as int).drop_first() =~= all.skip(i + 1));
        i = i + 1;
    }
    None
}

/// The first line, if any, in which `url` occurs.
pub open spec fn session_line(url: Seq<char>, lines: Seq<Seq<char>>) -> Option<int>
    decreases lines.len(),
{
    if lines.len() == 0 {
        None
    } else {
        match session_line(url, lines.drop_last()) {
            Some(i) => Some(i),
            None => if is_substring(url, lines.last()) {
                Some(lines.len() - 1)
            } else {
                None
            },
        }
    }
}

/// Whether a login is needed, given the lines of the session status: it is
/// unless the status shows a session for `url` and, five lines further
/// down, where the status says until when the session is valid, does not
/// say that it has expired.
pub open spec fn session_expired(url: Seq<char>, lines: Seq<Seq<char>>) -> bool {
    match session_line(url, lines) {
        Some(i) => if i + 5 < lines.len() {
            is_substring("EXPIRED"@, lines[i + 5])
        } else {
            true
        },
        None => true,
    }
}

/// Tells from the lines of the session status whether a login is needed.
pub fn session_needs_login(url: &str, lines: &Vec<String>) -> (needed: bool)
    ensures
        needed == session_expired(url@, lines.deep_view()),
{
    let ghost all = lines.deep_view();
    let mut i: usize = 0;
    assert(all.take(0) =~= Seq::<Seq<char>>::empty());
    while i < lines.len()
        invariant
            i <= lines.len(),
            all == lines.deep_view(),
            session_line(url@, all.take(i as int)) is None,
        decreases lines.len() - i,
    {
        proof {
            assert(all.take(i + 1).drop_last() =~= all.take(i as int));
            assert(all.take(i + 1).last() == all[i as int]);
        }
        if text_contains(lines[i].as_str(), url) {
            proof {
                lemma_session_line_found(url@, all, i + 1);
            }
            if lines.len() >= 5 && i < lines.len() - 5 {
                return text_contains(lines[i + 5].as_str(), "EXPIRED");
            } else {
                return true;
            }
        }
        i = i + 1;
    }
    assert(all.take(i as int) =~= all);
    true
}

/// A session line found among the first lines is the session line of the
/// whole.
pub proof fn lemma_session_line_found(url: Seq<char>, lines: Seq<Seq<char>>, n: int)
    requires
        0 <= n <= lines.len(),
        session_line(url, lines.take(n)) is Some,
    ensures
        session_line(url, lines) == session_line(url, lines.take(n)),
    decreases lines.len() - n,
{
    if n < lines.len() {
        assert(lines.take(n + 1).drop_last() =~= lines.take(n));
        lemma_session_line_found(url, lines, n + 1);
    } else {
        assert(lines.take(n) =~= lines);
    }
}

/// Tells from the output of the session status command whether a login is
/// needed.
pub fn need_teleport_login(url: &str, tsh_status: &str) -> (needed: bool)
    ensures
        needed == session_expired(url@, lines_of(tsh_status@)),
{
    let lines = text_lines(tsh_status);
    session_needs_login(url, &lines)
}

/// Checks that the login tool is installed, given what looking for it
/// printed: nothing when it is not.
pub fn ensure_teleport(which_output: &str) -> (found: Result<(), ShipcatError>)
    ensures
        found is Ok <==> which_output@.len() > 0,
        found matches Err(e) ==> e == ShipcatError::TshNotFound,
{
    if which_output.is_empty() {
        Err(ShipcatError::TshNotFound)
    } else {
        Ok(())
    }
}

/// A step of a login. The library decides the steps; its caller takes them.
#[derive(Debug, PartialEq, Eq)]
pub enum LoginAction {
    /// Remove the stored session, a file under the home directory.
    RemoveSessionFile { path: String },
    /// Run the login tool with the arguments.
    TshLogin { args: Vec<String> },
    /// Define the named context of the cluster's command-line tool.
    SetContext { name: String, args: Vec<String> },
    /// Switch to the named context.
    UseContext { name: String },
}

/// The content of [`LoginAction`], as a mathematical value.
pub enum LoginActionView {
    RemoveSessionFile { path: Seq<char> },
    TshLogin { args: Seq<Seq<char>> },
    SetContext { name: Seq<char>, args: Seq<Seq<char>> },
    UseContext { name: Seq<char> },
}

impl DeepView for LoginAction {
    type V = LoginActionView;

    open spec fn deep_view(&self) -> LoginActionView {
        match self {
            LoginAction::RemoveSessionFile { path } => LoginActionView::RemoveSessionFile { path: path@ },
            LoginAction::TshLogin { args } => LoginActionView::TshLogin { args: args.deep_view() },
            LoginAction::SetContext { name, args } => LoginActionView::SetContext {
                name: name@,
                args: args.deep_view(),
            },
            LoginAction::UseContext { name } => LoginActionView::UseContext { name: name@ },
        }
    }
}

/// The steps of a login through `teleport`: the stored session is removed
/// when the login is forced; the login tool is run when a login is needed
/// or forced; then the context of the region is defined and switched to.
pub open spec fn teleport_steps(
    teleport: Seq<char>,
    clustername: Option<Seq<char>>,
    region: RegionView,
    force: bool,
    needs_login: bool,
) -> Seq<LoginActionView> {
    let identity = match clustername {
        Some(name) => name,
        None => teleport,
    };
    (if force {
        seq![LoginActionView::RemoveSessionFile { path: ".tsh/"@ + teleport + ".yaml"@ }]
    } else {
        Seq::empty()
    }) + (if needs_login || force {
        seq![
            LoginActionView::TshLogin { args: seq!["login"@, "--proxy="@ + teleport + ":443"@, "--auth=github"@] },
        ]
    } else {
        Seq::empty()
    }) + seq![
        LoginActionView::SetContext {
            name: region.name,
            args: seq!["--namespace="@ + region.namespace, "--cluster="@ + identity, "--user="@ + identity],
        },
        LoginActionView::UseContext { name: region.name },
    ]
}

/// The steps of a login to a region.
///
/// A region without a cluster cannot be logged in to. A cluster without a
/// login address is expected to have a context of its own name already,
/// which is switched to. Else the login tool must be installed, and the
/// steps are those of [`teleport_steps`].
pub open spec fn login_steps(
    conf: ConfigView,
    region: RegionView,
    force: bool,
    which_output: Seq<char>,
    status_lines: Seq<Seq<char>>,
) -> Result<Seq<LoginActionView>, ShipcatErrorView> {
    match owning_cluster(conf.clusters, region.name) {
        None => Err(ShipcatErrorView::NoCluster(region.name)),
        Some(cluster) => match cluster.teleport {
            None => Ok(seq![LoginActionView::UseContext { name: region.cluster }]),
            Some(teleport) => if which_output.len() == 0 {
                Err(ShipcatErrorView::TshNotFound)
            } else {
                Ok(
                    teleport_steps(
                        teleport,
                        cluster.clustername,
                        region,
                        force,
                        session_expired(teleport, status_lines),
                    ),
                )
            },
        },
    }
}

fn push_step(steps: &mut Vec<LoginAction>, step: LoginAction)
    ensures
        final(steps).deep_view() == old(steps).deep_view().push(step.deep_view()),
{
    let ghost before = steps.deep_view();
    steps.push(step);
    assert(steps.deep_view() =~= before.push(step.deep_view()));
}

fn args3(a: String, b: String, c: String) -> (args: Vec<String>)
    ensures
        args.deep_view() == seq![a@, b@, c@],
{
    let mut args: Vec<String> = Vec::new();
    args.push(a);
    args.push(b);
    args.push(c);
    assert(args.deep_view() =~= seq![a@, b@, c@]);
    args
}

/// The steps of a login through `teleport`, given whether the session
/// status says that a login is needed.
pub fn plan_teleport_login(
    teleport: &str,
    clustername: &Option<String>,
    region: &Region,
    force: bool,
    needs_login: bool,
) -> (steps: Vec<LoginAction>)
    ensures
        steps.deep_view() == teleport_steps(
            teleport@,
            clustername.deep_view(),
            region.deep_view(),
            force,
            needs_login,
        ),
{
    let mut steps: Vec<LoginAction> = Vec::new();
    assert(steps.deep_view() =~= Seq::<LoginActionView>::empty());
    if force {
        push_step(&mut steps, LoginAction::RemoveSessionFile { path: join3(".tsh/", teleport, ".yaml") });
    }
    let ghost first = steps.deep_view();
    if needs_login || force {
        push_step(
            &mut steps,
            LoginAction::TshLogin {
                args: args3(
                    String::from_str("login"),
                    join3("--proxy=", teleport, ":443"),
                    String::from_str("--auth=github"),
                ),
            },
        );
    }
    let ghost second = steps.deep_view();
    let identity = match clustername {
        Some(name) => name.as_str(),
        None => teleport,
    };
    push_step(
        &mut steps,
        LoginAction::SetContext {
            name: region.name.clone(),
            args: args3(
                join2("--namespace=", region.namespace.as_str()),
                join2("--cluster=", identity),
                join2("--user=", identity),
            ),
        },
    );
    push_step(&mut steps, LoginAction::UseContext { name: region.name.clone() });
    assert(steps.deep_view() =~= teleport_steps(
        teleport@,
        clustername.deep_view(),
        region.deep_view(),
        force,
        needs_login,
    ));
    steps
}

/// The address through which a region is logged in to, if its cluster has
/// one. Only then does a login look at the login tool and at the session
/// status.
pub fn teleport_of(conf: &Config, region: &Region) -> (teleport: Option<String>)
    ensures
        teleport.deep_view() == match owning_cluster(conf.deep_view().clusters, region.deep_view().name) {
            Some(cluster) => cluster.teleport,
            None => None,
        },
{
    match find_owning_cluster(conf, region) {
        Some(cluster) => cluster.teleport.clone(),
        None => None,
    }
}

/// Decides the steps of a login to a region, given what the lines of the
/// session status are.
pub fn plan_login(
    conf: &Config,
    region: &Region,
    force: bool,
    which_output: &str,
    status_lines: &Vec<String>,
) -> (steps: Result<Vec<LoginAction>, ShipcatError>)
    ensures
        result_view(steps) == login_steps(
            conf.deep_view(),
            region.deep_view(),
            force,
            which_output@,
            status_lines.deep_view(),
        ),
{
    match find_owning_cluster(conf, region) {
        None => Err(ShipcatError::NoCluster(region.name.clone())),
        Some(cluster) => match &cluster.teleport {
            None => {
                let mut steps: Vec<LoginAction> = Vec::new();
                let step = LoginAction::UseContext { name: region.cluster.clone() };
                steps.push(step);
                assert(steps.deep_view() =~= seq![step.deep_view()]);
                Ok(steps)
            },
            Some(teleport) => match ensure_teleport(which_output) {
                Err(e) => Err(e),
                Ok(_) => {
                    let needs_login = session_needs_login(teleport.as_str(), status_lines);
                    Ok(plan_teleport_login(teleport.as_str(), &cluster.clustername, region, force, needs_login))
                },
            },
        },
    }
}

/// Decides the steps of a login to a region by going through the cluster
/// that runs it.
///
/// `which_output` is what looking for the login tool printed, and
/// `tsh_status` what the session status command printed; neither is looked
/// at unless the cluster has a login address. With `force` the login is
/// made even where a session is still valid.
pub fn login(conf: &Config, region: &Region, force: bool, which_output: &str, tsh_status: &str) -> (steps: Result<
    Vec<LoginAction>,
    ShipcatError,
>)
    ensures
        result_view(steps) == login_steps(
            conf.deep_view(),
            region.deep_view(),
            force,
            which_output@,
            lines_of(tsh_status@),
        ),
{
    let lines = text_lines(tsh_status);
    plan_login(conf, region, force, which_output, &lines)
}

} // verus!
