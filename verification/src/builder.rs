use vstd::prelude::*;

verus! {

/// A [`BuilderFlow`] is generic over `M`, the mediator produced by
/// [`BuilderFlow::build`]. This flavour of the builder protocol cannot
/// fail: every precondition of construction is met by an empty builder.
pub trait BuilderFlow<M>: Sized {
    /// Does the finished mediator `m` carry exactly what this builder
    /// accumulated?
    spec fn builds(self, m: M) -> bool;

    /// Finalize the builder into a mediator.
    fn build(self) -> (r: M)
        ensures
            self.builds(r),
    ;
}

/// Trait for creating a builder that implements [`BuilderFlow`] for a
/// mediator `M`.
pub trait BuilderInternal<M, Flow>: Sized where Flow: BuilderFlow<M> {
    /// Is `f` a freshly created builder, with nothing registered yet?
    spec fn fresh_flow(f: Flow) -> bool;

    /// Create an empty builder.
    fn builder() -> (r: Flow)
        ensures
            Self::fresh_flow(r),
    ;
}

/// A [`TryBuilderFlow`] is generic over `M`, the mediator that
/// [`TryBuilderFlow::build`] attempts to produce. Construction succeeds
/// exactly when the builder is complete; otherwise the distinguished
/// error of the flow is returned.
pub trait TryBuilderFlow<M>: Sized {
    type Error;

    /// Has every mandatory ingredient of the mediator been supplied?
    spec fn complete(self) -> bool;

    /// Does the finished mediator `m` carry exactly what this builder
    /// accumulated?
    spec fn builds(self, m: M) -> bool;

    /// Finalize the builder: a mediator exactly when the builder is
    /// complete, the flow's error otherwise.
    fn build(self) -> (r: Result<M, Self::Error>)
        ensures
            r is Ok <==> self.complete(),
            r is Ok ==> self.builds(r->Ok_0),
    ;
}

/// Trait for creating a builder that implements [`TryBuilderFlow`] for a
/// mediator `M`.
pub trait TryBuilderInternal<M, Flow>: Sized where Flow: TryBuilderFlow<M> {
    /// Is `f` a freshly created builder, with nothing registered yet?
    spec fn fresh_flow(f: Flow) -> bool;

    /// Create an empty builder.
    fn builder() -> (r: Flow)
        ensures
            Self::fresh_flow(r),
    ;
}

} // verus!
