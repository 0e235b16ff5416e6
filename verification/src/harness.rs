//! The load harness's bookkeeping: how a trial's exchanges are shared out
//! among its connections, and how the workers' results become the trial's.

use crate::client::{
    client_run, client_start, unbroken, unbroken_worker_performs_its_share, ClientError,
    ClientModel, ClientSession,
};
use crate::config::Model;
use crate::elapsed::{mean_elapsed, total_nanos, Elapsed, MAX_NANOS};
use vstd::prelude::*;

verus! {

/// A number of exchanges to be shared out among a number of connections, as
/// the contracts see it.
pub struct WorkloadModel {
    /// Exchanges asked for.
    pub requested: nat,
    /// Connections to share them among; at least one.
    pub connections: nat,
}

impl WorkloadModel {
    /// Exchanges that each connection performs: an even share, the
    /// remainder left out.
    pub open spec fn share(self) -> nat {
        self.requested / self.connections
    }

    /// Exchanges that all connections together perform.
    pub open spec fn performed(self) -> nat {
        self.share() * self.connections
    }

    /// Exchanges asked for that no connection performs.
    pub open spec fn discarded(self) -> nat {
        self.requested % self.connections
    }

    /// The workers of this workload once each has performed its share
    /// without failure.
    pub open spec fn finished_workers(self) -> Seq<ClientModel> {
        Seq::new(self.connections, |i: int| client_run(self.share(), unbroken(self.share())))
    }
}

/// Exchanges that `workers` have completed, all together.
pub open spec fn exchanges_completed(workers: Seq<ClientModel>) -> nat
    decreases workers.len(),
{
    if workers.len() == 0 {
        0
    } else {
        exchanges_completed(workers.drop_last()) + workers.last().completed
    }
}

/// Sharing out loses only the remainder of the division: what is performed
/// is what was asked for less that remainder, which is smaller than the
/// number of connections. With at least one exchange per connection asked
/// for, every connection performs at least one.
pub proof fn split_loses_only_the_remainder(requested: nat, connections: nat)
    requires
        connections >= 1,
    ensures
        ({
            let workload = WorkloadModel { requested, connections };
            &&& workload.performed() == (requested / connections) * connections
            &&& workload.performed() == requested - requested % connections
            &&& workload.performed() + workload.discarded() == requested
            &&& workload.performed() <= requested
            &&& workload.discarded() < connections
            &&& requested >= connections ==> workload.share() >= 1
        }),
{
    assert((requested / connections) * connections == requested - requested % connections
        && requested % connections < connections && (requested >= connections ==> requested
        / connections >= 1)) by (nonlinear_arith)
        requires
            connections >= 1,
    ;
}

/// Workers that have each completed `each` exchanges have completed their
/// number times `each`.
pub proof fn exchanges_completed_of_equal(workers: Seq<ClientModel>, each: nat)
    requires
        forall|i: int| 0 <= i < workers.len() ==> (#[trigger] workers[i]).completed == each,
    ensures
        exchanges_completed(workers) == each * workers.len(),
    decreases workers.len(),
{
    if workers.len() > 0 {
        exchanges_completed_of_equal(workers.drop_last(), each);
        assert(each * workers.len() == each * (workers.len() - 1) + each) by (nonlinear_arith);
    } else {
        assert(each * workers.len() == 0) by (nonlinear_arith)
            requires
                workers.len() == 0,
        ;
    }
}

/// With no failure, a trial of `requested` exchanges over `connections`
/// connections performs `requested / connections` exchanges on each
/// connection and `(requested / connections) * connections` in all.
pub proof fn fan_out_performs_the_split(requested: nat, connections: nat)
    requires
        connections >= 1,
    ensures
        ({
            let workers = (WorkloadModel { requested, connections }).finished_workers();
            &&& workers.len() == connections
            &&& forall|i: int|
                0 <= i < workers.len() ==> (#[trigger] workers[i]).completed == requested
                    / connections
            &&& exchanges_completed(workers) == (requested / connections) * connections
        }),
{
    let workload = WorkloadModel { requested, connections };
    let workers = workload.finished_workers();
    unbroken_worker_performs_its_share(workload.share());
    exchanges_completed_of_equal(workers, workload.share());
}

/// A number of exchanges shared out among at least one connection.
#[derive(Clone, Copy, Debug)]
pub struct Workload {
    requested: u64,
    connections: u32,
}

impl View for Workload {
    type V = WorkloadModel;

    closed spec fn view(&self) -> WorkloadModel {
        WorkloadModel { requested: self.requested as nat, connections: self.connections as nat }
    }
}

impl Workload {
    #[verifier::type_invariant]
    spec fn has_a_connection(self) -> bool {
        self.connections >= 1
    }

    /// Shares `requested` exchanges out among `connections` connections.
    /// `None` exactly if there is no connection.
    pub fn split(requested: u64, connections: u32) -> (workload: Option<Workload>)
        ensures
            match workload {
                Some(w) => connections >= 1 && w@ == (WorkloadModel {
                    requested: requested as nat,
                    connections: connections as nat,
                }),
                None => connections == 0,
            },
    {
        if connections == 0 {
            None
        } else {
            Some(Workload { requested, connections })
        }
    }

    /// Exchanges asked for.
    pub fn requested(&self) -> (requested: u64)
        ensures
            requested == self@.requested,
    {
        self.requested
    }

    /// Connections that share the exchanges; at least one.
    pub fn connections(&self) -> (connections: u32)
        ensures
            connections == self@.connections,
            connections >= 1,
    {
        proof {
            use_type_invariant(self);
        }
        self.connections
    }

    /// Exchanges that each connection performs.
    pub fn share(&self) -> (share: u64)
        ensures
            share == self@.share(),
    {
        proof {
            use_type_invariant(self);
        }
        self.requested / (self.connections as u64)
    }

    /// Exchanges that all connections together perform.
    pub fn performed(&self) -> (performed: u64)
        ensures
            performed == self@.performed(),
            performed == self@.requested - self@.discarded(),
    {
        proof {
            use_type_invariant(self);
            split_loses_only_the_remainder(self@.requested, self@.connections);
        }
        self.share() * (self.connections as u64)
    }

    /// Exchanges asked for that no connection performs.
    pub fn discarded(&self) -> (discarded: u64)
        ensures
            discarded == self@.discarded(),
            discarded < self@.connections,
    {
        proof {
            use_type_invariant(self);
        }
        self.requested % (self.connections as u64)
    }

    /// A worker for one of the connections, with its share to perform.
    pub fn worker(&self) -> (worker: ClientSession)
        ensures
            worker@ == client_start(self@.share()),
    {
        ClientSession::new(self.share())
    }
}

/// One measurement: a model, a number of connections and a number of
/// exchanges to share out among them.
#[derive(Clone, Copy, PartialEq, Eq, Structural, Debug)]
pub struct Trial {
    /// How server and clients run their connections.
    pub model: Model,
    /// Concurrent client connections.
    pub connections: u32,
    /// Exchanges to share out.
    pub iterations: u64,
}

impl Trial {
    /// The trial's exchanges shared out among its connections. `None`
    /// exactly if the trial has no connection.
    pub fn workload(&self) -> (workload: Option<Workload>)
        ensures
            match workload {
                Some(w) => self.connections >= 1 && w@ == (WorkloadModel {
                    requested: self.iterations as nat,
                    connections: self.connections as nat,
                }),
                None => self.connections == 0,
            },
    {
        Workload::split(self.iterations, self.connections)
    }
}

/// Why a trial has no result.
#[derive(Clone, Copy, PartialEq, Eq, Structural, Debug)]
pub enum TrialError {
    /// The worker at `index` failed with `error`, and no worker before it
    /// failed.
    Worker { index: usize, error: ClientError },
    /// There was no worker.
    NoWorkers,
    /// The workers' times together are longer than an `Elapsed` can hold.
    Overflow,
}

/// The time of each worker, in the workers' order. Meaningful where every
/// worker succeeded.
pub open spec fn samples_of(outcomes: Seq<Result<Elapsed, ClientError>>) -> Seq<Elapsed> {
    Seq::new(outcomes.len(), |i: int| outcomes[i]->Ok_0)
}

/// Whether every worker succeeded.
pub open spec fn all_succeeded(outcomes: Seq<Result<Elapsed, ClientError>>) -> bool {
    forall|i: int| 0 <= i < outcomes.len() ==> (#[trigger] outcomes[i]) is Ok
}

/// The result of a trial from the results of its workers, each the time the
/// worker took for its share or the error that ended it.
///
/// One failed worker fails the trial; nothing is reported of the others.
/// Otherwise the result is the mean of the workers' times: their sum divided
/// by their number.
pub fn trial_elapsed(outcomes: &[Result<Elapsed, ClientError>]) -> (result: Result<
    Elapsed,
    TrialError,
>)
    ensures
        match result {
            Ok(mean) => {
                &&& all_succeeded(outcomes@)
                &&& outcomes@.len() > 0
                &&& total_nanos(samples_of(outcomes@)) <= MAX_NANOS
                &&& mean@ == total_nanos(samples_of(outcomes@)) / outcomes@.len()
            },
            Err(TrialError::Worker { index, error }) => {
                &&& index < outcomes@.len()
                &&& outcomes@[index as int] == Err::<Elapsed, ClientError>(error)
                &&& forall|j: int| 0 <= j < index ==> (#[trigger] outcomes@[j]) is Ok
            },
            Err(TrialError::NoWorkers) => outcomes@.len() == 0,
            Err(TrialError::Overflow) => {
                &&& all_succeeded(outcomes@)
                &&& outcomes@.len() > 0
                &&& total_nanos(samples_of(outcomes@)) > MAX_NANOS
            },
        },
{
    let mut samples: Vec<Elapsed> = Vec::new();
    let mut index: usize = 0;
    while index < outcomes.len()
        invariant
            index <= outcomes@.len(),
            samples@.len() == index,
            forall|j: int|
                0 <= j < index ==> (#[trigger] outcomes@[j]) == Ok::<Elapsed, ClientError>(
                    samples@[j],
                ),
        decreases outcomes.len() - index,
    {
        match outcomes[index] {
            Ok(sample) => {
                samples.push(sample);
            },
            Err(error) => {
                return Err(TrialError::Worker { index, error });
            },
        }
        index = index + 1;
    }
    assert(samples@ =~= samples_of(outcomes@));
    match mean_elapsed(samples.as_slice()) {
        Some(mean) => Ok(mean),
        None => {
            if samples.len() == 0 {
                Err(TrialError::NoWorkers)
            } else {
                Err(TrialError::Overflow)
            }
        },
    }
}

} // verus!
