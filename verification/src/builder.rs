use vstd::prelude::*;
use vstd::string::StringExecFns;

verus! {

/// A named capability unit that can be attached to the builder before
/// construction completes. The set of capabilities is fixed at compile time;
/// the shell currently knows exactly one, the shell/file-open integration.
#[derive(Clone, Copy, PartialEq, Eq, Structural, Debug)]
pub enum PluginDescriptor {
    Opener,
}

impl PluginDescriptor {
    /// The name under which the capability registers.
    pub open spec fn name_spec(self) -> Seq<char> {
        match self {
            PluginDescriptor::Opener => "opener"@,
        }
    }

    /// The name under which the capability registers.
    pub fn name(&self) -> (r: String)
        ensures
            r@ == self.name_spec(),
    {
        match self {
            PluginDescriptor::Opener => String::from_str("opener"),
        }
    }
}

/// The mathematical value of a builder: the ordered plugin registrations,
/// the context if one was attached, and whether the accumulator was already
/// consumed by a construction.
#[verifier::ext_equal]
pub struct BuilderModel {
    pub plugins: Seq<PluginDescriptor>,
    pub context: Option<Seq<u8>>,
    pub consumed: bool,
}

/// A fresh accumulator: no plugins, no context, not yet consumed.
pub open spec fn empty_builder() -> BuilderModel {
    BuilderModel { plugins: Seq::empty(), context: None, consumed: false }
}

/// What one registration does to a builder: it appends the descriptor to the
/// ordered sequence and changes nothing else.
pub open spec fn register_model(b: BuilderModel, d: PluginDescriptor) -> BuilderModel {
    BuilderModel { plugins: b.plugins.push(d), ..b }
}

/// What attaching a context does to a builder: the new context replaces any
/// earlier one, and nothing else changes (last write wins).
pub open spec fn attach_model(b: BuilderModel, c: Seq<u8>) -> BuilderModel {
    BuilderModel { context: Some(c), ..b }
}

/// The outcome of construction at the model level: either the frozen
/// instance, or the error owed when the accumulator was already consumed.
pub open spec fn finish_result(b: BuilderModel) -> Result<InstanceModel, ConstructionError> {
    if b.consumed {
        Err(ConstructionError::AlreadyConsumed)
    } else {
        Ok(InstanceModel { plugins: b.plugins, context: b.context })
    }
}

/// The builder left behind by a construction attempt: a successful one moves
/// the plugins and the context into the instance and marks the accumulator
/// consumed; a failed one leaves the accumulator as it was.
pub open spec fn finish_after(b: BuilderModel) -> BuilderModel {
    if b.consumed {
        b
    } else {
        BuilderModel { plugins: Seq::empty(), context: None, consumed: true }
    }
}

/// The error `finish` raises. Construction consumes the accumulator, so a
/// second attempt on the same builder is refused deterministically.
#[derive(Clone, Copy, PartialEq, Eq, Structural, Debug)]
pub enum ConstructionError {
    AlreadyConsumed,
}

impl ConstructionError {
    /// A human-readable diagnostic for the fatal report.
    pub fn describe(&self) -> (r: String)
        ensures
            r@ == "builder already consumed: an instance was already constructed from it"@,
    {
        String::from_str("builder already consumed: an instance was already constructed from it")
    }
}

/// The mathematical value of a constructed instance: the frozen plugin
/// sequence and the loaded context.
#[verifier::ext_equal]
pub struct InstanceModel {
    pub plugins: Seq<PluginDescriptor>,
    pub context: Option<Seq<u8>>,
}

/// The constructed, immutable-shape runtime handle: the frozen plugin set and
/// the loaded context. Created exactly once per builder.
pub struct ApplicationInstance {
    plugins: Vec<PluginDescriptor>,
    context: Option<Vec<u8>>,
}

impl View for ApplicationInstance {
    type V = InstanceModel;

    closed spec fn view(&self) -> InstanceModel {
        InstanceModel {
            plugins: self.plugins@,
            context: match self.context {
                Some(c) => Some(c@),
                None => None,
            },
        }
    }
}

impl ApplicationInstance {
    /// How many plugins were frozen into the instance.
    pub fn plugin_count(&self) -> (n: usize)
        ensures
            n == self@.plugins.len(),
    {
        self.plugins.len()
    }

    /// The plugin at a position, in registration order.
    pub fn plugin_at(&self, i: usize) -> (d: PluginDescriptor)
        requires
            i < self@.plugins.len(),
        ensures
            d == self@.plugins[i as int],
    {
        self.plugins[i]
    }

    /// Whether a generated context was attached before construction.
    pub fn has_context(&self) -> (b: bool)
        ensures
            b == (self@.context is Some),
    {
        self.context.is_some()
    }

    /// The loaded context, byte for byte, or `None` where none was attached.
    pub fn context_bytes(&self) -> (c: &Option<Vec<u8>>)
        ensures
            match c {
                Some(v) => self@.context == Some(v@),
                None => self@.context is None,
            },
    {
        &self.context
    }
}

/// The outcome of the initialization hook: success, or a descriptive failure
/// that must keep the event loop from starting.
#[derive(Clone, Copy, PartialEq, Eq, Structural, Debug)]
pub enum InitError {
    SetupFailed,
}

impl InitError {
    /// A human-readable diagnostic for the fatal report.
    pub fn describe(&self) -> (r: String)
        ensures
            r@ == "one-time application setup failed"@,
    {
        String::from_str("one-time application setup failed")
    }
}

/// One-time setup, invoked exactly once, right after construction succeeds
/// and before the event loop starts. A placeholder by design: it leaves the
/// instance unchanged and succeeds on every input.
pub fn initialize_app(instance: &mut ApplicationInstance) -> (r: Result<(), InitError>)
    ensures
        r is Ok,
        final(instance)@ == old(instance)@,
{
    Ok(())
}

/// Accumulates plugin registrations and an optional generated context, then
/// produces exactly one application instance.
pub struct BuilderState {
    plugins: Vec<PluginDescriptor>,
    context: Option<Vec<u8>>,
    consumed: bool,
}

impl View for BuilderState {
    type V = BuilderModel;

    closed spec fn view(&self) -> BuilderModel {
        BuilderModel {
            plugins: self.plugins@,
            context: match self.context {
                Some(c) => Some(c@),
                None => None,
            },
            consumed: self.consumed,
        }
    }
}

impl BuilderState {
    /// Returns an empty accumulator. No side effects; always succeeds.
    pub fn new() -> (b: BuilderState)
        ensures
            b@ == empty_builder(),
    {
        let b = BuilderState { plugins: Vec::new(), context: None, consumed: false };
        proof {
            assert(b@ =~= empty_builder());
        }
        b
    }

    /// Appends a plugin descriptor to the ordered sequence and returns the
    /// accumulator, so registrations chain. Duplicate registration is
    /// permitted: the builder does not deduplicate.
    pub fn register_plugin(self, descriptor: PluginDescriptor) -> (b: BuilderState)
        ensures
            b@ == register_model(self@, descriptor),
    {
        let mut b = self;
        b.plugins.push(descriptor);
        proof {
            assert(b@ =~= register_model(self@, descriptor));
        }
        b
    }

    /// Sets the generated context. Calling it twice overwrites silently:
    /// last write wins, with no merge.
    pub fn attach_context(self, context: Vec<u8>) -> (b: BuilderState)
        ensures
            b@ == attach_model(self@, context@),
    {
        let mut b = self;
        b.context = Some(context);
        proof {
            assert(b@ =~= attach_model(self@, context@));
        }
        b
    }

    /// Freezes the plugin sequence and the context into an application
    /// instance, consuming the accumulator: success is owed exactly when the
    /// accumulator was not consumed before, and a second attempt on the same
    /// builder fails with a construction-stage error rather than a panic.
    pub fn finish(&mut self) -> (r: Result<ApplicationInstance, ConstructionError>)
        ensures
            final(self)@ == finish_after(old(self)@),
            r is Ok <==> !old(self)@.consumed,
            r matches Ok(instance) ==> finish_result(old(self)@) == Ok::<
                InstanceModel,
                ConstructionError,
            >(instance@),
            r matches Err(e) ==> finish_result(old(self)@) == Err::<
                InstanceModel,
                ConstructionError,
            >(e),
    {
        if self.consumed {
            return Err(ConstructionError::AlreadyConsumed);
        }
        self.consumed = true;
        let mut plugins: Vec<PluginDescriptor> = Vec::new();
        core::mem::swap(&mut plugins, &mut self.plugins);
        let mut context: Option<Vec<u8>> = None;
        core::mem::swap(&mut context, &mut self.context);
        let instance = ApplicationInstance { plugins, context };
        proof {
            assert(final(self)@ =~= finish_after(old(self)@));
            assert(instance@ =~= InstanceModel {
                plugins: old(self)@.plugins,
                context: old(self)@.context,
            });
        }
        Ok(instance)
    }
}

/// The builder that a whole sequence of registrations leaves behind, applied
/// in order to `b`.
pub open spec fn register_all(b: BuilderModel, ds: Seq<PluginDescriptor>) -> BuilderModel
    decreases ds.len(),
{
    if ds.len() == 0 {
        b
    } else {
        register_all(register_model(b, ds[0]), ds.drop_first())
    }
}

/// Registrations only append: after any sequence of them, the plugins are the
/// old plugins followed by the registered descriptors in order, and neither
/// the context nor the consumed mark moves.
pub proof fn lemma_register_all_appends(b: BuilderModel, ds: Seq<PluginDescriptor>)
    ensures
        register_all(b, ds).plugins == b.plugins + ds,
        register_all(b, ds).context == b.context,
        register_all(b, ds).consumed == b.consumed,
    decreases ds.len(),
{
    if ds.len() == 0 {
        assert(b.plugins + ds =~= b.plugins);
    } else {
        lemma_register_all_appends(register_model(b, ds[0]), ds.drop_first());
        assert(b.plugins.push(ds[0]) + ds.drop_first() =~= b.plugins + ds);
    }
}

/// For every sequence of registrations on a fresh builder followed by a
/// construction, the construction succeeds and the instance's plugin set is
/// exactly the registered descriptors, in registration order.
pub proof fn lemma_registration_order_preserved(ds: Seq<PluginDescriptor>)
    ensures
        finish_result(register_all(empty_builder(), ds)) matches Ok(instance) && instance.plugins
            == ds,
{
    lemma_register_all_appends(empty_builder(), ds);
    assert(Seq::<PluginDescriptor>::empty() + ds =~= ds);
}

/// Attaching a context twice retains only the last one, for any two context
/// values: the second attach leaves exactly the builder the second attach
/// alone would have left.
pub proof fn lemma_attach_context_last_write_wins(
    b: BuilderModel,
    first: Seq<u8>,
    second: Seq<u8>,
)
    ensures
        attach_model(attach_model(b, first), second) == attach_model(b, second),
{
}

/// A construction attempt on a builder that a construction already consumed
/// fails deterministically with the construction-stage error, whatever the
/// builder held.
pub proof fn lemma_finish_twice_fails(b: BuilderModel)
    ensures
        finish_result(finish_after(b)) == Err::<InstanceModel, ConstructionError>(
            ConstructionError::AlreadyConsumed,
        ),
{
}

} // verus!
