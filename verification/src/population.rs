//! The Controller Population: the external neuroevolution service that
//! owns the evolvable controllers, keyed by id.
//!
//! The core treats it as an opaque collaborator. Five named views stand
//! for what its tables hold — the live controller keys, the live species
//! ids, the remaining input-growth capacity, the admissibility of its
//! fitness ledger and the connectedness of its controllers — and each
//! operation the core relies on is a thin trusted wrapper whose contract
//! states, over those views, what the service's source shows.

use vstd::prelude::*;

use rusty_neat::NeatContinous;

verus! {

#[verifier::external_type_specification]
#[verifier::external_body]
pub struct ExNeatContinous(NeatContinous);

/// The set of live controller keys: the keys of the population's agents
/// table.
pub uninterp spec fn pop_keys(p: NeatContinous) -> Set<usize>;

/// The set of live species ids: the keys of the population's species
/// table.
pub uninterp spec fn pop_species(p: NeatContinous) -> Set<usize>;

/// How many more input channels every controller still has room for: the
/// least free input slot count across the population. On an empty
/// population the count is not positive.
pub uninterp spec fn pop_input_slack(p: NeatContinous) -> int;

/// Every controller's fitness is nonnegative, so the fitness-weighted
/// parent draw of an offspring operation is well formed. Established by
/// construction (controllers start at fitness zero) and kept as long as
/// only nonnegative amounts are credited.
pub uninterp spec fn pop_fitness_ok(p: NeatContinous) -> bool;

/// Every controller keeps at least one connection, now and under the
/// population's own operations as driven here (breeding, speciation,
/// growth, pruning). Crossover and species comparison walk a controller's
/// connection keys and abort on a controller that has none, so the
/// breeding and speciation operations ask for this and, the state being
/// closed under the operations, hand it back.
pub uninterp spec fn pop_wf(p: NeatContinous) -> bool;

/// Relies on NeatContinous::offspring: it crosses the named parent with a
/// fitness-weighted mate of the parent's species, inserts the mutated
/// child under a fresh key (one past the largest live key) and returns
/// that key. It touches neither the species table, nor any controller's
/// input capacity or fitness; the child's fitness is copied from a
/// parent, so an admissible ledger stays admissible. Crossover walks the
/// parents' connection keys and aborts on a controller with none, so the
/// connectedness condition is asked for and handed back.
#[verifier::external_body]
pub fn offspring(pop: &mut NeatContinous, parent: usize) -> (child: usize)
    requires
        pop_keys(*old(pop)).contains(parent),
        pop_fitness_ok(*old(pop)),
        pop_wf(*old(pop)),
    ensures
        pop_keys(*final(pop)) == pop_keys(*old(pop)).insert(child),
        !pop_keys(*old(pop)).contains(child),
        pop_species(*final(pop)) == pop_species(*old(pop)),
        pop_input_slack(*final(pop)) == pop_input_slack(*old(pop)),
        pop_fitness_ok(*final(pop)),
        pop_wf(*final(pop)),
{
    pop.offspring(&parent)
}

/// Relies on NeatContinous::species_assign: it prunes empty species,
/// assigns the named controller to a close-enough species or founds a new
/// one, and returns the species id, which is live afterwards. The agents
/// table's keys, input capacities and fitness values are untouched. The
/// comparison walks connection keys of the controller and of one member
/// per species and aborts on a controller with none, so the connectedness
/// condition is asked for and handed back.
#[verifier::external_body]
pub fn species_assign(pop: &mut NeatContinous, key: usize) -> (species: usize)
    requires
        pop_keys(*old(pop)).contains(key),
        pop_wf(*old(pop)),
    ensures
        pop_keys(*final(pop)) == pop_keys(*old(pop)),
        pop_species(*final(pop)).contains(species),
        pop_input_slack(*final(pop)) == pop_input_slack(*old(pop)),
        pop_fitness_ok(*old(pop)) ==> pop_fitness_ok(*final(pop)),
        pop_wf(*final(pop)),
{
    pop.species_assign(&key)
}

/// Relies on the population's species table being a map keyed by species
/// id: its key set, handed out in whatever order the table yields, with
/// no duplicates.
#[verifier::external_body]
pub fn live_species(pop: &NeatContinous) -> (r: Vec<usize>)
    ensures
        forall|i: int, j: int| 0 <= i < j < r@.len() ==> r@[i] != r@[j],
        forall|s: usize| #[trigger] r@.contains(s) <==> pop_species(*pop).contains(s),
{
    pop.species_table.keys().cloned().collect()
}

/// Relies on NeatContinous::add_input: it appends one input channel to
/// every controller, spending one slot of each controller's free input
/// space. It panics only when some controller has no space left, which
/// the precondition rules out. Keys, species and fitness are untouched.
#[verifier::external_body]
pub fn add_input(pop: &mut NeatContinous)
    requires
        pop_input_slack(*old(pop)) >= 1,
    ensures
        pop_keys(*final(pop)) == pop_keys(*old(pop)),
        pop_species(*final(pop)) == pop_species(*old(pop)),
        pop_input_slack(*final(pop)) == pop_input_slack(*old(pop)) - 1,
        pop_fitness_ok(*old(pop)) ==> pop_fitness_ok(*final(pop)),
        pop_wf(*old(pop)) ==> pop_wf(*final(pop)),
{
    pop.add_input()
}

/// Relies on NN::sort_layers: it rebuilds each controller's internal
/// layer order after a structural change, touching no table key, input
/// capacity or fitness value.
#[verifier::external_body]
pub fn sort_all_layers(pop: &mut NeatContinous)
    ensures
        pop_keys(*final(pop)) == pop_keys(*old(pop)),
        pop_species(*final(pop)) == pop_species(*old(pop)),
        pop_input_slack(*final(pop)) == pop_input_slack(*old(pop)),
        pop_fitness_ok(*old(pop)) ==> pop_fitness_ok(*final(pop)),
        pop_wf(*old(pop)) ==> pop_wf(*final(pop)),
{
    pop.agents.values_mut().for_each(|a| a.sort_layers());
}

/// Relies on NN::free_nodes_calc: it recomputes each controller's
/// candidate connection sets after a structural change, touching no table
/// key, input capacity or fitness value.
#[verifier::external_body]
pub fn refresh_free_nodes(pop: &mut NeatContinous)
    ensures
        pop_keys(*final(pop)) == pop_keys(*old(pop)),
        pop_species(*final(pop)) == pop_species(*old(pop)),
        pop_input_slack(*final(pop)) == pop_input_slack(*old(pop)),
        pop_fitness_ok(*old(pop)) ==> pop_fitness_ok(*final(pop)),
        pop_wf(*old(pop)) ==> pop_wf(*final(pop)),
{
    pop.agents.values_mut().for_each(|a| a.free_nodes_calc());
}

/// Apply one growth event: add the given number of input channels to
/// every controller, then re-layer and re-validate each controller's
/// structure, as every growth event must.
pub fn grow_population(pop: &mut NeatContinous, channels: usize)
    requires
        pop_input_slack(*old(pop)) >= channels,
    ensures
        pop_keys(*final(pop)) == pop_keys(*old(pop)),
        pop_species(*final(pop)) == pop_species(*old(pop)),
        pop_input_slack(*final(pop)) == pop_input_slack(*old(pop)) - channels,
        pop_fitness_ok(*old(pop)) ==> pop_fitness_ok(*final(pop)),
        pop_wf(*old(pop)) ==> pop_wf(*final(pop)),
{
    let ghost pop0 = *pop;
    let mut added: usize = 0;
    while added < channels
        invariant
            added <= channels,
            pop_input_slack(pop0) >= channels,
            pop_keys(*pop) == pop_keys(pop0),
            pop_species(*pop) == pop_species(pop0),
            pop_input_slack(*pop) == pop_input_slack(pop0) - added,
            pop_fitness_ok(pop0) ==> pop_fitness_ok(*pop),
            pop_wf(pop0) ==> pop_wf(*pop),
        decreases channels - added,
    {
        add_input(pop);
        added = added + 1;
    }
    sort_all_layers(pop);
    refresh_free_nodes(pop);
}

} // verus!
