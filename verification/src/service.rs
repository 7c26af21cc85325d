use vstd::prelude::*;
use vstd::string::StringExecFns;

use crate::brew_command::BrewCommand;
use crate::brew_command::BrewError;
use crate::brew_command::EnvVars;
use crate::formulae::OutdatedPackages;
use crate::formulae::Package;
use crate::formulae::PackageModel;
use crate::outdated_json::decode_outdated;
use crate::outdated_json::decoded_report;
use crate::outdated_json::lemma_decoded_report_wf;
use crate::outdated_json::parsed_json;

verus! {

/// What the library asks of the program that actually runs the tool: a
/// blocking run returning captured stdout, the inherited environment to put
/// into descriptors, and a time-bounded supervised run. Implementations
/// live outside the library (the real executor, a mock); nothing is assumed
/// of what they return.
pub trait CommandExecutor {
    fn execute(&self, cmd: &BrewCommand) -> Result<String, BrewError>;

    fn envs(&self) -> EnvVars;

    fn execute_with_timeout(&self, cmd: &BrewCommand, timeout_ms: u64) -> Result<(), BrewError>;
}

/// The default per-package upgrade budget: five minutes.
pub const DEFAULT_UPGRADE_TIMEOUT_MS: u64 = 300000;

/// `f` maps each position of `sub` to the position of `full` it was taken
/// from: positions strictly increase, elements agree.
pub open spec fn subsequence_map_ok(
    f: Seq<int>,
    sub: Seq<PackageModel>,
    full: Seq<PackageModel>,
) -> bool {
    &&& f.len() == sub.len()
    &&& forall|k: int| 0 <= k < f.len() ==> 0 <= #[trigger] f[k] < full.len() && sub[k] == full[f[k]]
    &&& forall|k: int| 0 <= k < f.len() - 1 ==> #[trigger] f[k] < f[k + 1]
}

/// `sub` is `full` with some elements left out, the order of the rest kept.
pub open spec fn is_subsequence(sub: Seq<PackageModel>, full: Seq<PackageModel>) -> bool {
    exists|f: Seq<int>| subsequence_map_ok(f, sub, full)
}

proof fn lemma_map_at_least_identity(
    f: Seq<int>,
    sub: Seq<PackageModel>,
    full: Seq<PackageModel>,
    k: int,
)
    requires
        subsequence_map_ok(f, sub, full),
        0 <= k < f.len(),
    ensures
        f[k] >= k,
    decreases k,
{
    if k > 0 {
        lemma_map_at_least_identity(f, sub, full, k - 1);
        assert(f[k - 1] < f[k]);
    }
}

/// A failure list never outgrows the report it came from: a sublist is at
/// most as long as the full list; of an empty report, it is empty.
pub proof fn lemma_subsequence_len(sub: Seq<PackageModel>, full: Seq<PackageModel>)
    requires
        is_subsequence(sub, full),
    ensures
        sub.len() <= full.len(),
{
    let f = choose|f: Seq<int>| subsequence_map_ok(f, sub, full);
    if sub.len() > 0 {
        lemma_map_at_least_identity(f, sub, full, sub.len() - 1);
        assert(0 <= f[sub.len() - 1] < full.len());
    }
}

/// The per-package decision of the upgrade phase: a package whose
/// supervised call failed goes to the end of the failure list, whatever the
/// failure was; a package whose call succeeded leaves the list untouched.
pub fn record_upgrade_outcome(
    failed: &mut Vec<Package>,
    package: &Package,
    outcome: &Result<(), BrewError>,
)
    ensures
        outcome is Err ==> final(failed).deep_view() == old(failed).deep_view().push(package@),
        outcome is Ok ==> final(failed).deep_view() == old(failed).deep_view(),
{
    match outcome {
        Err(_) => {
            failed.push(package.duplicate());
            proof {
                assert(failed.deep_view() =~= old(failed).deep_view().push(package@));
            }
        },
        Ok(_) => {},
    }
}

/// Runs the four maintenance phases against whatever executor it is given.
pub struct BrewMaintainer<E: CommandExecutor> {
    executor: E,
}

impl<E: CommandExecutor> BrewMaintainer<E> {
    pub fn new(executor: E) -> Self {
        BrewMaintainer { executor }
    }

    /// Phase 1: refresh the package index. Whatever the executor returns is
    /// handed through.
    pub fn update_reference_repositories(&self) -> Result<String, BrewError> {
        self.executor.execute(&BrewCommand::Update { envs: self.executor.envs() })
    }

    /// Phase 2: list outdated packages and decode the report. When a report
    /// comes back, it is the decode of some tool output and every one of its
    /// packages satisfies the record invariant; an output that does not
    /// decode fails the phase with the fixed parse message.
    pub fn find_outdated_packages(&self) -> (r: Result<OutdatedPackages, BrewError>)
        ensures
            r matches Ok(rep) ==> (exists|s: Seq<char>|
                #[trigger] decoded_report(s) == Some(rep@)),
            r matches Ok(rep) ==> rep@.wf(),
    {
        let outdated_json = match self.executor.execute(
            &BrewCommand::Outdated { envs: self.executor.envs() },
        ) {
            Ok(s) => s,
            Err(e) => {
                return Err(e);
            },
        };
        match decode_outdated(outdated_json.as_str()) {
            Some(rep) => {
                proof {
                    assert(decoded_report(outdated_json@) == Some(rep@));
                    let node = parsed_json(outdated_json@).unwrap();
                    lemma_decoded_report_wf(node, rep@);
                }
                Ok(rep)
            },
            None => Err(
                BrewError::ExecutionFailed(
                    String::from_str("error on parsing the outdated report"),
                ),
            ),
        }
    }

    /// Phase 3: upgrade every reported package in order, formulae first,
    /// casks after, one supervised call per package under the given budget.
    /// Each call's outcome is settled by [`record_upgrade_outcome`]: a
    /// failed upgrade is recorded and the phase goes on with the next
    /// package; the phase itself never fails. The recorded failures are the
    /// report's packages with the successful ones left out, order kept.
    pub fn upgrade_packages_with_timeout(
        &self,
        outdated_packages: &OutdatedPackages,
        timeout_ms: u64,
    ) -> (r: Result<Vec<Package>, BrewError>)
        ensures
            r matches Ok(failed) && is_subsequence(
                failed.deep_view(),
                outdated_packages@.formulae + outdated_packages@.casks,
            ) && ((outdated_packages@.formulae + outdated_packages@.casks).len() == 0
                ==> failed@.len() == 0),
    {
        let all = outdated_packages.all_packages();
        let mut failed_upgrade: Vec<Package> = Vec::new();
        let ghost mut picks: Seq<int> = Seq::empty();
        let mut i: usize = 0;
        while i < all.len()
            invariant
                i <= all@.len(),
                picks.len() == failed_upgrade.deep_view().len(),
                forall|k: int|
                    0 <= k < picks.len() ==> 0 <= #[trigger] picks[k] < i as int
                        && failed_upgrade.deep_view()[k] == all.deep_view()[picks[k]],
                forall|k: int| 0 <= k < picks.len() - 1 ==> #[trigger] picks[k] < picks[k + 1],
            decreases all@.len() - i,
        {
            let package = &all[i];
            let cmd = BrewCommand::Upgrade {
                package_name: package.name.clone(),
                envs: self.executor.envs(),
            };
            let outcome = self.executor.execute_with_timeout(&cmd, timeout_ms);
            record_upgrade_outcome(&mut failed_upgrade, package, &outcome);
            proof {
                if outcome is Err {
                    picks = picks.push(i as int);
                }
            }
            i = i + 1;
        }
        proof {
            assert(failed_upgrade@.len() == failed_upgrade.deep_view().len());
            assert(subsequence_map_ok(picks, failed_upgrade.deep_view(), all.deep_view()));
            if all.deep_view().len() == 0 && picks.len() > 0 {
                assert(0 <= picks[0] < all.deep_view().len());
                assert(false);
            }
        }
        Ok(failed_upgrade)
    }

    /// Phase 4: clean stale artifacts up. Whatever the executor returns is
    /// handed through.
    pub fn cleanup(&self) -> Result<String, BrewError> {
        self.executor.execute(&BrewCommand::Cleanup { envs: self.executor.envs() })
    }
}

/// How a run can fail: which fatal phase aborted it, with the tool's error.
/// The upgrade phase never aborts a run; its failures are per-package and
/// stand in the report.
#[derive(Debug)]
pub enum MaintenanceError {
    UpdateFailed(BrewError),
    FindOutdatedFailed(BrewError),
    CleanupFailed(BrewError),
}

/// The fixed phase description each run failure carries.
pub open spec fn maintenance_message_spec(e: MaintenanceError) -> Seq<char> {
    match e {
        MaintenanceError::UpdateFailed(_) => "Failed to update reference repositories"@,
        MaintenanceError::FindOutdatedFailed(_) => "Failed in finding outdated packages"@,
        MaintenanceError::CleanupFailed(_) => "Failed to cleanup"@,
    }
}

impl MaintenanceError {
    /// The phase description of this failure, for the run's report.
    pub fn message(&self) -> (r: String)
        ensures
            r@ == maintenance_message_spec(*self),
    {
        match self {
            MaintenanceError::UpdateFailed(_) => String::from_str(
                "Failed to update reference repositories",
            ),
            MaintenanceError::FindOutdatedFailed(_) => String::from_str(
                "Failed in finding outdated packages",
            ),
            MaintenanceError::CleanupFailed(_) => String::from_str("Failed to cleanup"),
        }
    }
}

/// The run's policy for the refresh phase: success hands the tool's output
/// through untouched; a failure aborts the run as UpdateFailed, carrying
/// the tool's error untouched.
pub fn settle_refresh_phase(r: Result<String, BrewError>) -> (out: Result<
    String,
    MaintenanceError,
>)
    ensures
        r matches Ok(s) ==> (out matches Ok(t) && t == s),
        r matches Err(e) ==> (out matches Err(MaintenanceError::UpdateFailed(e2)) && e2 == e),
{
    match r {
        Ok(s) => Ok(s),
        Err(e) => Err(MaintenanceError::UpdateFailed(e)),
    }
}

/// The run's policy for the listing phase: success hands the decoded report
/// through untouched; a failure aborts the run as FindOutdatedFailed,
/// carrying the error untouched.
pub fn settle_listing_phase(r: Result<OutdatedPackages, BrewError>) -> (out: Result<
    OutdatedPackages,
    MaintenanceError,
>)
    ensures
        r matches Ok(rep) ==> (out matches Ok(rep2) && rep2 == rep),
        r matches Err(e) ==> (out matches Err(MaintenanceError::FindOutdatedFailed(e2)) && e2
            == e),
{
    match r {
        Ok(rep) => Ok(rep),
        Err(e) => Err(MaintenanceError::FindOutdatedFailed(e)),
    }
}

/// The run's policy for the cleanup phase: success hands the tool's output
/// through untouched; a failure aborts the run as CleanupFailed, carrying
/// the tool's error untouched.
pub fn settle_cleanup_phase(r: Result<String, BrewError>) -> (out: Result<
    String,
    MaintenanceError,
>)
    ensures
        r matches Ok(s) ==> (out matches Ok(t) && t == s),
        r matches Err(e) ==> (out matches Err(MaintenanceError::CleanupFailed(e2)) && e2 == e),
{
    match r {
        Ok(s) => Ok(s),
        Err(e) => Err(MaintenanceError::CleanupFailed(e)),
    }
}

/// What a completed run reports: the refresh and cleanup outputs, the
/// decoded outdated report, and the packages whose upgrade failed.
#[derive(Debug)]
pub struct MaintenanceReport {
    pub update_output: String,
    pub outdated_packages: OutdatedPackages,
    pub failed_upgrades: Vec<Package>,
    pub cleanup_output: String,
}

/// One maintenance pass: refresh, list and decode, upgrade each package
/// under the default budget, clean up. A failure of phase 1, 2 or 4 aborts
/// the run and names the phase — each phase's mapping from the tool's
/// result to the run's is fixed by its settle function above; per-package
/// upgrade failures never abort, they stand in the report as the report's
/// packages with the successful ones left out, order kept.
pub fn run_maintenance<E: CommandExecutor>(brew_maintainer: &BrewMaintainer<E>) -> (r: Result<
    MaintenanceReport,
    MaintenanceError,
>)
    ensures
        r matches Ok(rep) ==> (is_subsequence(
            rep.failed_upgrades.deep_view(),
            rep.outdated_packages@.formulae + rep.outdated_packages@.casks,
        ) && rep.outdated_packages@.wf() && exists|s: Seq<char>| #[trigger] decoded_report(s)
            == Some(rep.outdated_packages@)),
{
    let update_output = match settle_refresh_phase(brew_maintainer.update_reference_repositories()) {
        Ok(s) => s,
        Err(e) => {
            return Err(e);
        },
    };
    let outdated_packages = match settle_listing_phase(brew_maintainer.find_outdated_packages()) {
        Ok(o) => o,
        Err(e) => {
            return Err(e);
        },
    };
    let failed_upgrades = match brew_maintainer.upgrade_packages_with_timeout(
        &outdated_packages,
        DEFAULT_UPGRADE_TIMEOUT_MS,
    ) {
        Ok(v) => v,
        Err(_) => unreached(),
    };
    let cleanup_output = match settle_cleanup_phase(brew_maintainer.cleanup()) {
        Ok(s) => s,
        Err(e) => {
            return Err(e);
        },
    };
    Ok(MaintenanceReport { update_output, outdated_packages, failed_upgrades, cleanup_output })
}

} // verus!
