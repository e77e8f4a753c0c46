//! The validation context, its builders, and the chain-state manager.
//!
//! A context is built once from a consumed builder, shared read-only by
//! every chain-state manager built from it, and destroyed only after the
//! last of them; the reference-counting ledger that enforces that order is
//! modeled here and proved to defer destruction to the last owner.

use vstd::prelude::*;
use vstd::string::{StringExecFns, StringSliceAdditionalSpecFns};
use crate::enums::ChainType;
use crate::error::KernelError;

verus! {

/// An immutable descriptor of one network parameter profile.
pub struct ChainParams {
    chain_type: ChainType,
}

impl ChainParams {
    /// The profile this descriptor selects.
    pub closed spec fn spec_chain_type(self) -> ChainType {
        self.chain_type
    }

    pub fn new(chain_type: ChainType) -> (r: ChainParams)
        ensures
            r.spec_chain_type() == chain_type,
    {
        ChainParams { chain_type }
    }

    pub fn chain_type(&self) -> (r: ChainType)
        ensures
            r == self.spec_chain_type(),
    {
        self.chain_type
    }
}

/// The mutable builder of a validation context. Each slot is exclusive: a
/// second attachment to the same slot is refused with `InvalidOptions` and
/// leaves the builder unchanged.
pub struct ContextOptions {
    chain_params: Option<ChainType>,
    notifications_attached: bool,
    validation_interface_attached: bool,
}

impl ContextOptions {
    /// The chain parameters attached so far, if any.
    pub closed spec fn spec_chain_params(self) -> Option<ChainType> {
        self.chain_params
    }

    /// Whether a notification handler has been attached.
    pub closed spec fn spec_has_notifications(self) -> bool {
        self.notifications_attached
    }

    /// Whether a validation-interface handler has been attached.
    pub closed spec fn spec_has_validation_interface(self) -> bool {
        self.validation_interface_attached
    }

    /// A fresh builder with every slot empty.
    pub fn new() -> (r: ContextOptions)
        ensures
            r.spec_chain_params() is None,
            !r.spec_has_notifications(),
            !r.spec_has_validation_interface(),
    {
        ContextOptions {
            chain_params: None,
            notifications_attached: false,
            validation_interface_attached: false,
        }
    }

    /// Attaches chain parameters. Fails, leaving the builder unchanged, when
    /// parameters were already attached.
    pub fn set_chain_params(&mut self, params: ChainParams) -> (r: Result<(), KernelError>)
        ensures
            old(self).spec_chain_params() is None ==> (r == Ok::<(), KernelError>(()) && final(self).spec_chain_params() == Some(params.spec_chain_type()) && final(self).spec_has_notifications() == old(self).spec_has_notifications() && final(self).spec_has_validation_interface() == old(self).spec_has_validation_interface()),
            old(self).spec_chain_params() is Some ==> (*final(self) == *old(self) && (r matches
            Err(e) && e matches KernelError::InvalidOptions(m) && m@
                == "chain parameters were already set"@)),
    {
        if self.chain_params.is_none() {
            self.chain_params = Some(params.chain_type());
            Ok(())
        } else {
            Err(KernelError::InvalidOptions(String::from_str("chain parameters were already set")))
        }
    }

    /// Records that a notification handler is attached; the handler object
    /// itself stays with the caller, beside the engine's callback table.
    /// Fails, leaving the builder unchanged, when one was already attached.
    pub fn set_notifications(&mut self) -> (r: Result<(), KernelError>)
        ensures
            !old(self).spec_has_notifications() ==> (r == Ok::<(), KernelError>(()) && final(self).spec_has_notifications() && final(self).spec_chain_params() == old(self).spec_chain_params() && final(self).spec_has_validation_interface() == old(self).spec_has_validation_interface()),
            old(self).spec_has_notifications() ==> (*final(self) == *old(self) && (r matches Err(e)
                && e matches KernelError::InvalidOptions(m) && m@
                == "a notification handler was already set"@)),
    {
        if !self.notifications_attached {
            self.notifications_attached = true;
            Ok(())
        } else {
            Err(
                KernelError::InvalidOptions(
                    String::from_str("a notification handler was already set"),
                ),
            )
        }
    }

    /// Records that a validation-interface handler is attached. Fails,
    /// leaving the builder unchanged, when one was already attached.
    pub fn set_validation_interface(&mut self) -> (r: Result<(), KernelError>)
        ensures
            !old(self).spec_has_validation_interface() ==> (r == Ok::<(), KernelError>(()) && final(self).spec_has_validation_interface() && final(self).spec_chain_params() == old(self).spec_chain_params() && final(self).spec_has_notifications() == old(self).spec_has_notifications()),
            old(self).spec_has_validation_interface() ==> (*final(self) == *old(self) && (r matches
            Err(e) && e matches KernelError::InvalidOptions(m) && m@
                == "a validation interface was already set"@)),
    {
        if !self.validation_interface_attached {
            self.validation_interface_attached = true;
            Ok(())
        } else {
            Err(
                KernelError::InvalidOptions(
                    String::from_str("a validation interface was already set"),
                ),
            )
        }
    }
}

/// The chain type a finalized context runs with: the attached parameters,
/// or mainnet when none were attached.
pub open spec fn spec_context_chain(chain_params: Option<ChainType>) -> ChainType {
    match chain_params {
        Some(t) => t,
        None => ChainType::Mainnet,
    }
}

/// An immutable, shareable validation environment.
pub struct Context {
    chain_type: ChainType,
    has_notifications: bool,
    has_validation_interface: bool,
}

impl Context {
    /// The network profile the context was built with.
    pub closed spec fn spec_chain_type(self) -> ChainType {
        self.chain_type
    }

    /// Whether a notification handler was wired in at construction.
    pub closed spec fn spec_has_notifications(self) -> bool {
        self.has_notifications
    }

    /// Whether a validation interface was wired in at construction.
    pub closed spec fn spec_has_validation_interface(self) -> bool {
        self.has_validation_interface
    }

    /// Finalizes a builder into an immutable context; the builder is
    /// consumed and cannot be reused. No selection this layer accepts is
    /// refused here: for every builder, construction succeeds whenever the
    /// foreign environment came up (`engine_ok`), with mainnet standing in
    /// where no chain parameters were attached. Handlers are only wired for
    /// later dispatch, never invoked during finalization.
    pub fn from_options(options: ContextOptions, engine_ok: bool) -> (r: Result<
        Context,
        KernelError,
    >)
        ensures
            engine_ok ==> (r matches Ok(c) && c.spec_chain_type() == spec_context_chain(
                options.spec_chain_params(),
            ) && c.spec_has_notifications() == options.spec_has_notifications()
                && c.spec_has_validation_interface() == options.spec_has_validation_interface()),
            !engine_ok ==> (r matches Err(e) && e matches KernelError::Internal(m) && m@
                == "the foreign validation environment could not be constructed"@),
    {
        if engine_ok {
            let chain_type = match options.chain_params {
                Some(t) => t,
                None => ChainType::Mainnet,
            };
            Ok(
                Context {
                    chain_type,
                    has_notifications: options.notifications_attached,
                    has_validation_interface: options.validation_interface_attached,
                },
            )
        } else {
            Err(
                KernelError::Internal(
                    String::from_str("the foreign validation environment could not be constructed"),
                ),
            )
        }
    }

    pub fn chain_type(&self) -> (r: ChainType)
        ensures
            r == self.spec_chain_type(),
    {
        self.chain_type
    }
}

/// The shared-ownership ledger of one context: how many chain-state managers
/// hold it alive, whether the caller still holds its own handle, and whether
/// the foreign resource has been destroyed. Destruction belongs to the last
/// owner, never earlier.
pub struct ContextLifecycle {
    pub manager_refs: u64,
    pub caller_handle_live: bool,
    pub destroyed: bool,
}

/// The ledger after the caller drops its own context handle: the handle is
/// gone, and the resource is destroyed exactly when no manager holds it.
pub open spec fn spec_after_drop_caller(lc: ContextLifecycle) -> ContextLifecycle {
    ContextLifecycle {
        caller_handle_live: false,
        destroyed: lc.manager_refs == 0,
        ..lc
    }
}

/// The ledger after one manager releases its reference: the count falls by
/// one, and the resource is destroyed exactly when that was the last
/// reference of all.
pub open spec fn spec_after_release_manager(lc: ContextLifecycle) -> ContextLifecycle {
    ContextLifecycle {
        manager_refs: (lc.manager_refs - 1) as u64,
        destroyed: lc.manager_refs == 1 && !lc.caller_handle_live,
        ..lc
    }
}

impl ContextLifecycle {
    /// A ledger is well formed while destruction implies that every
    /// reference is gone.
    pub open spec fn wf(self) -> bool {
        self.destroyed ==> (self.manager_refs == 0 && !self.caller_handle_live)
    }

    /// The ledger of a freshly constructed context: the caller holds the
    /// only reference.
    pub fn new() -> (r: ContextLifecycle)
        ensures
            r.wf(),
            r.manager_refs == 0,
            r.caller_handle_live,
            !r.destroyed,
    {
        ContextLifecycle { manager_refs: 0, caller_handle_live: true, destroyed: false }
    }

    /// A new manager takes a shared reference to the context.
    pub fn register_manager(&mut self)
        requires
            old(self).wf(),
            !old(self).destroyed,
            old(self).manager_refs < u64::MAX,
        ensures
            final(self).wf(),
            final(self).manager_refs == old(self).manager_refs + 1,
            final(self).caller_handle_live == old(self).caller_handle_live,
            !final(self).destroyed,
    {
        self.manager_refs = self.manager_refs + 1;
    }

    /// The caller drops its own context handle. The foreign resource is
    /// destroyed now exactly when no manager still holds a reference.
    pub fn drop_caller_handle(&mut self)
        requires
            old(self).wf(),
            old(self).caller_handle_live,
        ensures
            final(self).wf(),
            *final(self) == spec_after_drop_caller(*old(self)),
    {
        self.caller_handle_live = false;
        if self.manager_refs == 0 {
            self.destroyed = true;
        }
    }

    /// One manager releases its reference. The foreign resource is destroyed
    /// now exactly when this was the last reference of all.
    pub fn release_manager(&mut self)
        requires
            old(self).wf(),
            old(self).manager_refs > 0,
        ensures
            final(self).wf(),
            *final(self) == spec_after_release_manager(*old(self)),
    {
        self.manager_refs = self.manager_refs - 1;
        if self.manager_refs == 0 && !self.caller_handle_live {
            self.destroyed = true;
        }
    }
}

/// Dropping the caller's context handle while a dependent manager is live
/// never destroys the context's foreign resource: destruction is deferred
/// to the last owner.
pub proof fn lemma_live_manager_keeps_context(lc: ContextLifecycle)
    requires
        lc.wf(),
        lc.caller_handle_live,
        lc.manager_refs > 0,
    ensures
        !spec_after_drop_caller(lc).destroyed,
        spec_after_drop_caller(lc).manager_refs == lc.manager_refs,
        spec_after_drop_caller(lc).wf(),
{
}

/// The context's foreign resource is destroyed exactly when the last
/// reference of all is released, whichever order the owners leave in.
pub proof fn lemma_last_owner_destroys(lc: ContextLifecycle)
    requires
        lc.wf(),
    ensures
        lc.caller_handle_live ==> (spec_after_drop_caller(lc).destroyed <==> lc.manager_refs == 0),
        lc.manager_refs > 0 ==> (spec_after_release_manager(lc).destroyed <==> (lc.manager_refs
            == 1 && !lc.caller_handle_live)),
{
}

/// A data directory path is acceptable when it is non-empty and holds no
/// embedded terminator byte.
pub open spec fn spec_valid_data_dir(bytes: Seq<u8>) -> bool {
    bytes.len() > 0 && (forall|i: int| 0 <= i < bytes.len() ==> bytes[i] != 0)
}

/// The mutable builder of a chain-state manager, bound to one context.
pub struct ChainstateManagerOptions {
    chain_type: ChainType,
    data_dir: String,
}

impl ChainstateManagerOptions {
    /// The network profile of the context the builder is bound to.
    pub closed spec fn spec_chain_type(self) -> ChainType {
        self.chain_type
    }

    /// The validated data directory path.
    pub closed spec fn spec_data_dir(self) -> Seq<char> {
        self.data_dir@
    }

    /// Binds a builder to `context` and validates the data directory path:
    /// it must be non-empty (else `InvalidOptions`) and hold no embedded
    /// terminator byte (else `CStringCreationFailed`). Every other path is
    /// accepted.
    pub fn new(context: &Context, data_dir: &str) -> (r: Result<
        ChainstateManagerOptions,
        KernelError,
    >)
        ensures
            spec_valid_data_dir(data_dir.spec_bytes()) ==> (r matches Ok(o) && o.spec_chain_type()
                == context.spec_chain_type() && o.spec_data_dir() == data_dir@),
            data_dir.spec_bytes().len() == 0 ==> (r matches Err(e) && e
                matches KernelError::InvalidOptions(m) && m@
                == "the data directory path must not be empty"@),
            (data_dir.spec_bytes().len() > 0 && (exists|i: int|
                0 <= i < data_dir.spec_bytes().len() && data_dir.spec_bytes()[i] == 0)) ==> (r
                matches Err(e) && e matches KernelError::CStringCreationFailed(m) && m@
                == "the data directory path holds an embedded terminator"@),
    {
        let bytes = data_dir.as_bytes();
        if bytes.len() == 0 {
            return Err(
                KernelError::InvalidOptions(
                    String::from_str("the data directory path must not be empty"),
                ),
            );
        }
        let mut i: usize = 0;
        while i < bytes.len()
            invariant
                i <= bytes@.len(),
                bytes@ == data_dir.spec_bytes(),
                forall|k: int| 0 <= k < i ==> bytes@[k] != 0,
            decreases bytes@.len() - i,
        {
            if bytes[i] == 0 {
                return Err(
                    KernelError::CStringCreationFailed(
                        String::from_str("the data directory path holds an embedded terminator"),
                    ),
                );
            }
            i = i + 1;
        }
        Ok(
            ChainstateManagerOptions {
                chain_type: context.chain_type(),
                data_dir: data_dir.to_owned(),
            },
        )
    }
}

/// The handle to one validation/query engine instance, bound to one context
/// and one data directory.
pub struct ChainstateManager {
    chain_type: ChainType,
    data_dir: String,
}

impl ChainstateManager {
    /// The network profile the manager validates under.
    pub closed spec fn spec_chain_type(self) -> ChainType {
        self.chain_type
    }

    /// The data directory the manager was opened on.
    pub closed spec fn spec_data_dir(self) -> Seq<char> {
        self.data_dir@
    }

    /// Builds the engine handle from consumed options. No options value this
    /// layer accepts is refused here: for every builder, construction
    /// succeeds whenever the foreign engine initialized (`engine_ok`), and
    /// fails with the non-retriable `Internal` kind otherwise.
    pub fn new(options: ChainstateManagerOptions, engine_ok: bool) -> (r: Result<
        ChainstateManager,
        KernelError,
    >)
        ensures
            engine_ok ==> (r matches Ok(m) && m.spec_chain_type() == options.spec_chain_type()
                && m.spec_data_dir() == options.spec_data_dir()),
            !engine_ok ==> (r matches Err(e) && e matches KernelError::Internal(m) && m@
                == "the foreign engine could not initialize"@),
    {
        if engine_ok {
            Ok(ChainstateManager { chain_type: options.chain_type, data_dir: options.data_dir })
        } else {
            Err(KernelError::Internal(String::from_str("the foreign engine could not initialize")))
        }
    }

    /// The outcome of submitting one block for connection, as the engine
    /// reported it: acceptance hands back whether the block was new, and
    /// rejection is an engine failure. Detailed per-block verdicts arrive
    /// through the validation interface.
    pub fn process_block(&self, engine_accepted: bool, duplicate: bool) -> (r: Result<
        bool,
        KernelError,
    >)
        ensures
            engine_accepted ==> r == Ok::<bool, KernelError>(!duplicate),
            !engine_accepted ==> (r matches Err(e) && e matches KernelError::Internal(m) && m@
                == "the engine rejected the block"@),
    {
        if engine_accepted {
            Ok(!duplicate)
        } else {
            Err(KernelError::Internal(String::from_str("the engine rejected the block")))
        }
    }
}

/// Builds the whole validation stack for one chain-type selection: fresh
/// context options, the chosen chain parameters, a finalized context, and a
/// chain-state manager on `data_dir`. This layer itself refuses nothing
/// here: for every chain type, the stack comes up whenever the directory
/// path is well formed and the foreign side accepted both constructions.
pub fn build_validation_stack(
    chain_type: ChainType,
    data_dir: &str,
    context_engine_ok: bool,
    manager_engine_ok: bool,
) -> (r: Result<(Context, ChainstateManager), KernelError>)
    ensures
        (spec_valid_data_dir(data_dir.spec_bytes()) && context_engine_ok && manager_engine_ok)
            ==> (r matches Ok(p) && p.0.spec_chain_type() == chain_type && p.1.spec_chain_type()
            == chain_type && p.1.spec_data_dir() == data_dir@),
{
    let mut options = ContextOptions::new();
    let attached = options.set_chain_params(ChainParams::new(chain_type));
    proof {
        assert(attached is Ok);
    }
    let context = match Context::from_options(options, context_engine_ok) {
        Ok(c) => c,
        Err(e) => {
            return Err(e);
        },
    };
    let manager_options = match ChainstateManagerOptions::new(&context, data_dir) {
        Ok(o) => o,
        Err(e) => {
            return Err(e);
        },
    };
    let manager = match ChainstateManager::new(manager_options, manager_engine_ok) {
        Ok(m) => m,
        Err(e) => {
            return Err(e);
        },
    };
    Ok((context, manager))
}

/// The engine's answer to one chain query.
pub enum LookupOutcome<T> {
    /// The queried record exists; here it is.
    Found(T),
    /// The query was well-formed, but no such record exists.
    NotFound,
    /// The engine itself failed.
    Failure,
}

/// Interprets the engine's answer to a chain query — a block index by height
/// or hash, a block or its undo data for an index, a coin for an outpoint.
/// A found record is handed out; a missing record reaches past what the
/// chain view holds, so it is `OutOfBounds`; an engine failure is the
/// non-retriable `Internal` kind. The two failure ways are thus told apart
/// by variant, not by message.
pub fn resolve_lookup<T>(outcome: LookupOutcome<T>) -> (r: Result<T, KernelError>)
    ensures
        outcome matches LookupOutcome::Found(v) ==> (r matches Ok(got) && got == v),
        outcome is NotFound ==> (r matches Err(e) && e == KernelError::OutOfBounds),
        outcome is Failure ==> (r matches Err(e) && e matches KernelError::Internal(m) && m@
            == "the engine failed during a chain query"@),
{
    match outcome {
        LookupOutcome::Found(v) => Ok(v),
        LookupOutcome::NotFound => Err(KernelError::OutOfBounds),
        LookupOutcome::Failure => Err(
            KernelError::Internal(String::from_str("the engine failed during a chain query")),
        ),
    }
}

} // verus!
