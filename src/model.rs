use vstd::prelude::*;

use std::sync::Arc;

verus! {

/// Slot for the loaded inference model. A reader takes a snapshot, an `Arc` that stays valid
/// while later loads replace the slot's content.
pub struct ModelHolder<M> {
    current: Option<Arc<M>>,
}

/// The model installed after a load whose construction gave `built`: a new model on
/// success, the previous one on failure.
pub open spec fn after_load<M, E>(prev: Option<M>, built: Result<M, E>) -> Option<M> {
    match built {
        Ok(m) => Some(m),
        Err(_) => prev,
    }
}

/// The model installed after a run of loads, starting from `start`.
pub open spec fn after_loads<M, E>(start: Option<M>, builds: Seq<Result<M, E>>) -> Option<M>
    decreases builds.len(),
{
    if builds.len() == 0 {
        start
    } else {
        after_load(after_loads(start, builds.drop_last()), builds.last())
    }
}

/// Relies on `Arc::clone`: another handle to the same value.
#[verifier::external_body]
fn share<M>(a: &Arc<M>) -> (r: Arc<M>)
    ensures
        *r == **a,
{
    Arc::clone(a)
}

impl<M> ModelHolder<M> {
    /// The installed model, if any.
    pub closed spec fn installed(&self) -> Option<M> {
        match self.current {
            Some(a) => Some(*a),
            None => None,
        }
    }

    /// An empty slot.
    pub fn new() -> (h: Self)
        ensures
            h.installed() is None,
    {
        ModelHolder { current: None }
    }

    /// A snapshot of the installed model.
    pub fn current(&self) -> (r: Option<Arc<M>>)
        ensures
            r is Some == self.installed() is Some,
            r matches Some(a) ==> Some(*a) == self.installed(),
    {
        match &self.current {
            Some(a) => Some(share(a)),
            None => None,
        }
    }

    /// Whether a model is installed.
    pub fn is_loaded(&self) -> (r: bool)
        ensures
            r == self.installed() is Some,
    {
        self.current.is_some()
    }

    /// Installs a newly built model in place of the current one.
    pub fn install(&mut self, model: M)
        ensures
            final(self).installed() == Some(model),
    {
        self.current = Some(Arc::new(model));
    }
}

/// Installs the outcome of building a model: a model that was built replaces the current
/// one; a failure leaves the current one in place and is handed back.
pub fn load_model<M, E>(holder: &mut ModelHolder<M>, built: Result<M, E>) -> (r: Result<(), E>)
    ensures
        final(holder).installed() == after_load(old(holder).installed(), built),
        r is Ok == built is Ok,
        built matches Err(e) ==> r == Err::<(), E>(e),
{
    match built {
        Ok(m) => {
            holder.install(m);
            Ok(())
        },
        Err(e) => Err(e),
    }
}

/// Whether a model is loaded.
pub fn is_model_loaded<M>(holder: &ModelHolder<M>) -> (r: bool)
    ensures
        r == holder.installed() is Some,
{
    holder.is_loaded()
}

/// A failed load leaves the installed model, or its absence, as it was, and reports the
/// failure. After any run of loads from an empty slot, a model is installed exactly when one
/// of the loads succeeded.
pub proof fn lemma_only_successful_loads_install<M, E>(prev: Option<M>, e: E, builds: Seq<Result<M, E>>)
    ensures
        after_load(prev, Err::<M, E>(e)) == prev,
        (after_loads(None::<M>, builds) is Some) <==> (exists|i: int| 0 <= i < builds.len() && #[trigger] builds[i] is Ok),
    decreases builds.len(),
{
    if builds.len() > 0 {
        let p = builds.drop_last();
        lemma_only_successful_loads_install(prev, e, p);
        if builds.last() is Ok {
            assert(builds[builds.len() - 1] is Ok);
        } else {
            if exists|i: int| 0 <= i < p.len() && #[trigger] p[i] is Ok {
                let i = choose|i: int| 0 <= i < p.len() && #[trigger] p[i] is Ok;
                assert(builds[i] is Ok);
            }
            if exists|i: int| 0 <= i < builds.len() && #[trigger] builds[i] is Ok {
                let i = choose|i: int| 0 <= i < builds.len() && #[trigger] builds[i] is Ok;
                assert(i < builds.len() - 1);
                assert(p[i] is Ok);
            }
        }
    }
}

} // verus!
