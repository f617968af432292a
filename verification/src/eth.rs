//! The ledger side of the crate: the deployment flow.
//!
//! Deploying chains four pieces of outside work — compiling the source,
//! resolving the chain identifier, decrypting the wallet, and submitting the
//! transaction. The work itself (processes, network, files) belongs to a
//! driver; the flow verified here owns every decision between the stages:
//! what to ask for next, how each outcome is folded in, and when to fail.
//! A driver holds a [`DeployState`], performs the [`DeployAction`] it was
//! handed, and feeds the outcome back as a [`DeployEvent`] through [`step`].

use vstd::prelude::*;

use secrecy::ExposeSecret;

use crate::compile::select_contract;
use crate::compile::select_spec;
use crate::compile::CompiledArtifact;
use crate::compile::ContractDef;

verus! {

/// A deployment failure, tagged with the pipeline stage it arose in.
///
/// Every stage of the deployment flow has its own variant, so a caller can
/// tell the failing stage apart without inspecting message text. No variant
/// ever carries secret material.
#[derive(Debug, PartialEq, Eq)]
pub enum DeployContractError {
    /// The JSON API URL is not a well-formed absolute URL.
    InvalidUrl(String),
    /// The isolated worker running the compiler toolchain stopped abnormally.
    TokioTaskError(String),
    /// The compiler toolchain rejected the source file.
    SolcError(String),
    /// The source file holds no contract definition at all.
    NoContracts,
    /// The source file holds more than one contract definition, so the
    /// constructor target is ambiguous.
    TooManyContracts,
    /// The keystore could not be decrypted: wrong password, corrupt file or
    /// an unsupported encryption scheme.
    DecryptKeystore(String),
    /// The chain identifier query against the endpoint failed.
    GetChainId(String),
    /// The wallet handed back by the authentication stage is bound to a
    /// different chain than the one the endpoint resolved to.
    WrongChain { wallet_chain_id: u64, chain_id: u64 },
    /// Submitting or confirming the deployment transaction failed.
    DeploymentError(String),
}

/// Whether a string is a well-formed absolute URL, exactly as the WHATWG URL
/// parser of the `url` crate decides it. The full grammar takes pages to
/// state, so it is left as a name; it depends on the characters alone.
pub uninterp spec fn url_wellformed(s: Seq<char>) -> bool;

/// Relies on `url::Url::parse`: it returns `Ok` exactly on well-formed
/// absolute URLs, and its verdict is a function of the input string alone.
#[verifier::external_body]
fn try_parse_url(s: &str) -> (r: Result<(), String>)
    ensures
        r is Ok <==> url_wellformed(s@),
{
    match url::Url::parse(s) {
        Ok(_) => Ok(()),
        Err(e) => Err(format!("{e}")),
    }
}

/// Checks that `url` is a well-formed endpoint URL; this is the fail-fast
/// validation the deployment flow runs before any other work.
pub fn validate_rpc_url(url: &str) -> (r: Result<(), DeployContractError>)
    ensures
        r is Ok <==> url_wellformed(url@),
        r matches Err(e) ==> e is InvalidUrl,
{
    match try_parse_url(url) {
        Ok(()) => Ok(()),
        Err(msg) => Err(DeployContractError::InvalidUrl(msg)),
    }
}

/// The keystore password, held in the `secrecy` crate's container, which
/// redacts itself from any textual representation and wipes its memory on
/// drop. The flow never reads the password: the value is carried opaquely
/// and released to the driver exactly once, inside the decrypt request.
/// (The container's own generic declaration carries a trait bound the
/// verifier cannot see, so the value lives in a hidden field.)
#[verifier::external_body]
pub struct KeystorePassword {
    inner: secrecy::Secret<String>,
}

impl KeystorePassword {
    /// Relies on `secrecy::Secret::new`: takes ownership of a plain password
    /// and wraps it. Nothing is assumed of the wrapped value.
    #[verifier::external_body]
    pub fn from_plain(password: String) -> KeystorePassword {
        KeystorePassword { inner: secrecy::Secret::new(password) }
    }

    /// Relies on `secrecy::ExposeSecret::expose_secret`: hands the wrapped
    /// password out, for the scope of the decrypt call. Nothing is assumed
    /// of the exposed value.
    #[verifier::external_body]
    pub fn expose(&self) -> &str {
        self.inner.expose_secret().as_str()
    }
}

/// A signing identity: its ledger address and the chain identifier it was
/// bound to when the keystore was decrypted. The signing material itself
/// stays with the driver; the flow decides with the binding alone.
#[derive(Debug, PartialEq, Eq)]
pub struct Wallet {
    /// The identity's ledger address.
    pub address: Vec<u8>,
    /// The chain identifier the identity was bound to at decryption time.
    pub chain_id: u64,
}

/// A deployment transaction, ready for submission: the compiled contract,
/// the constructor argument, and the chain it is bound to.
#[derive(Debug, PartialEq, Eq)]
pub struct DeploymentTx {
    /// Interface description of the contract being created.
    pub abi: String,
    /// Bytecode of the contract being created.
    pub bytecode: Vec<u8>,
    /// The sole constructor argument.
    pub constructor_args: String,
    /// The chain the transaction is bound to.
    pub chain_id: u64,
}

/// The terminal artifact of a successful deployment: where the contract
/// lives on chain, and how to talk to it.
#[derive(Debug, PartialEq, Eq)]
pub struct DeployedContract {
    /// The deployed contract's on-chain address.
    pub address: Vec<u8>,
    /// The deployed contract's interface description.
    pub abi: String,
}

/// Command for deploying a smart contract: everything a deployment needs,
/// constructed once and consumed once by [`DeployContract::begin`].
pub struct DeployContract {
    /// Path to the source file where the contract is defined.
    pub src: String,
    /// JSON API URL of the ledger endpoint.
    pub url: String,
    /// The sole argument of the contract's constructor.
    pub constructor_args: String,
    /// Path to the keystore file of the wallet.
    pub keystore_path: String,
    /// Password to the keystore file.
    pub keystore_password: KeystorePassword,
}

/// How a compiler run can fail before any contract definition is seen.
pub enum CompileFailure {
    /// The isolated worker running the toolchain stopped abnormally.
    TaskFailed(String),
    /// The toolchain itself rejected the source.
    Toolchain(String),
}

/// One outside outcome, handed back to the flow by its driver.
pub enum DeployEvent {
    /// The compiler run finished: the contract definitions it found, or how
    /// it failed.
    Compiled(Result<Vec<ContractDef>, CompileFailure>),
    /// The chain identifier query finished.
    ChainResolved(Result<u64, String>),
    /// The keystore decryption finished: the wallet with its chain binding,
    /// or the decryption failure.
    WalletDecrypted(Result<Wallet, String>),
    /// The submitted transaction was confirmed at the returned contract
    /// address, or submission or confirmation failed.
    TxConfirmed(Result<Vec<u8>, String>),
}

/// The next piece of outside work the flow asks its driver for.
pub enum DeployAction {
    /// Compile the source file on an isolated worker.
    Compile { src: String },
    /// Query the endpoint for its chain identifier.
    QueryChainId { url: String },
    /// Decrypt the keystore and bind the wallet to `chain_id`. This hands
    /// the password over: the flow holds no copy of it from here on.
    Decrypt { keystore_path: String, keystore_password: KeystorePassword, chain_id: u64 },
    /// Sign and submit the deployment transaction, then await confirmation.
    Submit { tx: DeploymentTx },
    /// The flow has ended; nothing more happens on the outside.
    Finished { result: Result<DeployedContract, DeployContractError> },
}

/// Where the deployment flow stands: which stage's outcome it is waiting
/// for, and what it still carries for the stages ahead. The keystore
/// password lives only in the first two states; it leaves the flow inside
/// the decrypt request.
pub enum DeployState {
    /// Waiting for the compiler run.
    Compiling {
        url: String,
        constructor_args: String,
        keystore_path: String,
        keystore_password: KeystorePassword,
    },
    /// Waiting for the chain identifier of the endpoint.
    Connecting {
        artifact: CompiledArtifact,
        constructor_args: String,
        keystore_path: String,
        keystore_password: KeystorePassword,
    },
    /// Waiting for the wallet decryption, bound to the resolved chain.
    Decrypting { artifact: CompiledArtifact, constructor_args: String, chain_id: u64 },
    /// Waiting for the transaction confirmation.
    Confirming { abi: String, chain_id: u64 },
    /// The flow has ended; its result went out in the final action.
    Done,
}

/// The transition relation of the deployment flow: what a state does with an
/// event. `None` when the event is not the one the state is waiting for —
/// a finished flow in particular expects nothing at all.
pub open spec fn step_spec(s: DeployState, e: DeployEvent) -> Option<
    (DeployState, DeployAction),
> {
    match (s, e) {
        (
            DeployState::Compiling { url, constructor_args, keystore_path, keystore_password },
            DeployEvent::Compiled(outcome),
        ) => Some(
            match outcome {
                Ok(contracts) => match select_spec(contracts@) {
                    Ok(artifact) => (
                        DeployState::Connecting {
                            artifact,
                            constructor_args,
                            keystore_path,
                            keystore_password,
                        },
                        DeployAction::QueryChainId { url },
                    ),
                    Err(error) => (
                        DeployState::Done,
                        DeployAction::Finished { result: Err(error) },
                    ),
                },
                Err(CompileFailure::TaskFailed(msg)) => (
                    DeployState::Done,
                    DeployAction::Finished {
                        result: Err(DeployContractError::TokioTaskError(msg)),
                    },
                ),
                Err(CompileFailure::Toolchain(msg)) => (
                    DeployState::Done,
                    DeployAction::Finished { result: Err(DeployContractError::SolcError(msg)) },
                ),
            },
        ),
        (
            DeployState::Connecting { artifact, constructor_args, keystore_path, keystore_password },
            DeployEvent::ChainResolved(outcome),
        ) => Some(
            match outcome {
                Ok(chain_id) => (
                    DeployState::Decrypting { artifact, constructor_args, chain_id },
                    DeployAction::Decrypt { keystore_path, keystore_password, chain_id },
                ),
                Err(msg) => (
                    DeployState::Done,
                    DeployAction::Finished { result: Err(DeployContractError::GetChainId(msg)) },
                ),
            },
        ),
        (
            DeployState::Decrypting { artifact, constructor_args, chain_id },
            DeployEvent::WalletDecrypted(outcome),
        ) => Some(
            match outcome {
                Ok(wallet) => if wallet.chain_id == chain_id {
                    (
                        DeployState::Confirming { abi: artifact.abi, chain_id },
                        DeployAction::Submit {
                            tx: DeploymentTx {
                                abi: artifact.abi,
                                bytecode: artifact.bytecode,
                                constructor_args,
                                chain_id,
                            },
                        },
                    )
                } else {
                    (
                        DeployState::Done,
                        DeployAction::Finished {
                            result: Err(
                                DeployContractError::WrongChain {
                                    wallet_chain_id: wallet.chain_id,
                                    chain_id,
                                },
                            ),
                        },
                    )
                },
                Err(msg) => (
                    DeployState::Done,
                    DeployAction::Finished {
                        result: Err(DeployContractError::DecryptKeystore(msg)),
                    },
                ),
            },
        ),
        (DeployState::Confirming { abi, chain_id }, DeployEvent::TxConfirmed(outcome)) => Some(
            match outcome {
                Ok(address) => (
                    DeployState::Done,
                    DeployAction::Finished { result: Ok(DeployedContract { address, abi }) },
                ),
                Err(msg) => (
                    DeployState::Done,
                    DeployAction::Finished {
                        result: Err(DeployContractError::DeploymentError(msg)),
                    },
                ),
            },
        ),
        _ => None,
    }
}

/// Whether `e` is the event the state `s` is waiting for.
pub open spec fn expects(s: DeployState, e: DeployEvent) -> bool {
    step_spec(s, e) is Some
}

impl DeployState {
    /// Tells a driver whether `e` is the event this state is waiting for;
    /// only then may the event be fed to [`step`].
    pub fn expects_event(&self, e: &DeployEvent) -> (b: bool)
        ensures
            b == expects(*self, *e),
    {
        match (self, e) {
            (DeployState::Compiling { .. }, DeployEvent::Compiled(_)) => true,
            (DeployState::Connecting { .. }, DeployEvent::ChainResolved(_)) => true,
            (DeployState::Decrypting { .. }, DeployEvent::WalletDecrypted(_)) => true,
            (DeployState::Confirming { .. }, DeployEvent::TxConfirmed(_)) => true,
            _ => false,
        }
    }
}

impl DeployContract {
    /// Builds a deployment request, wrapping the plain password in its
    /// self-redacting container as the one step that ever sees it in the
    /// clear.
    pub fn new(
        src: String,
        url: String,
        constructor_args: String,
        keystore_path: String,
        password: String,
    ) -> (r: DeployContract)
        ensures
            r.src == src,
            r.url == url,
            r.constructor_args == constructor_args,
            r.keystore_path == keystore_path,
    {
        DeployContract {
            src,
            url,
            constructor_args,
            keystore_path,
            keystore_password: KeystorePassword::from_plain(password),
        }
    }

    /// Starts the deployment flow. The endpoint URL is validated first and a
    /// malformed one fails the whole request at once, before any outside
    /// work is asked for; otherwise the first request is the compiler run.
    pub fn begin(self) -> (r: (DeployState, DeployAction))
        ensures
            url_wellformed(self.url@) ==> r == (
                DeployState::Compiling {
                    url: self.url,
                    constructor_args: self.constructor_args,
                    keystore_path: self.keystore_path,
                    keystore_password: self.keystore_password,
                },
                DeployAction::Compile { src: self.src },
            ),
            !url_wellformed(self.url@) ==> (r.0 is Done && (r.1 matches DeployAction::Finished {
                result,
            } && result matches Err(e) && e is InvalidUrl)),
    {
        match validate_rpc_url(&self.url) {
            Ok(()) => (
                DeployState::Compiling {
                    url: self.url,
                    constructor_args: self.constructor_args,
                    keystore_path: self.keystore_path,
                    keystore_password: self.keystore_password,
                },
                DeployAction::Compile { src: self.src },
            ),
            Err(error) => (DeployState::Done, DeployAction::Finished { result: Err(error) }),
        }
    }
}

/// Folds one outside outcome into the flow: consumes the state and the event
/// it was waiting for, and yields the next state with the next request.
pub fn step(s: DeployState, e: DeployEvent) -> (r: (DeployState, DeployAction))
    requires
        expects(s, e),
    ensures
        Some(r) == step_spec(s, e),
{
    match (s, e) {
        (
            DeployState::Compiling { url, constructor_args, keystore_path, keystore_password },
            DeployEvent::Compiled(outcome),
        ) => match outcome {
            Ok(contracts) => match select_contract(contracts) {
                Ok(artifact) => (
                    DeployState::Connecting {
                        artifact,
                        constructor_args,
                        keystore_path,
                        keystore_password,
                    },
                    DeployAction::QueryChainId { url },
                ),
                Err(error) => (DeployState::Done, DeployAction::Finished { result: Err(error) }),
            },
            Err(CompileFailure::TaskFailed(msg)) => (
                DeployState::Done,
                DeployAction::Finished { result: Err(DeployContractError::TokioTaskError(msg)) },
            ),
            Err(CompileFailure::Toolchain(msg)) => (
                DeployState::Done,
                DeployAction::Finished { result: Err(DeployContractError::SolcError(msg)) },
            ),
        },
        (
            DeployState::Connecting { artifact, constructor_args, keystore_path, keystore_password },
            DeployEvent::ChainResolved(outcome),
        ) => match outcome {
            Ok(chain_id) => (
                DeployState::Decrypting { artifact, constructor_args, chain_id },
                DeployAction::Decrypt { keystore_path, keystore_password, chain_id },
            ),
            Err(msg) => (
                DeployState::Done,
                DeployAction::Finished { result: Err(DeployContractError::GetChainId(msg)) },
            ),
        },
        (
            DeployState::Decrypting { artifact, constructor_args, chain_id },
            DeployEvent::WalletDecrypted(outcome),
        ) => match outcome {
            Ok(wallet) => if wallet.chain_id == chain_id {
                let abi_for_result = artifact.abi.clone();
                (
                    DeployState::Confirming { abi: abi_for_result, chain_id },
                    DeployAction::Submit {
                        tx: DeploymentTx {
                            abi: artifact.abi,
                            bytecode: artifact.bytecode,
                            constructor_args,
                            chain_id,
                        },
                    },
                )
            } else {
                (
                    DeployState::Done,
                    DeployAction::Finished {
                        result: Err(
                            DeployContractError::WrongChain {
                                wallet_chain_id: wallet.chain_id,
                                chain_id,
                            },
                        ),
                    },
                )
            },
            Err(msg) => (
                DeployState::Done,
                DeployAction::Finished { result: Err(DeployContractError::DecryptKeystore(msg)) },
            ),
        },
        (DeployState::Confirming { abi, chain_id: _ }, DeployEvent::TxConfirmed(outcome)) => match outcome {
            Ok(address) => (
                DeployState::Done,
                DeployAction::Finished { result: Ok(DeployedContract { address, abi }) },
            ),
            Err(msg) => (
                DeployState::Done,
                DeployAction::Finished { result: Err(DeployContractError::DeploymentError(msg)) },
            ),
        },
        _ => vstd::pervasive::unreached(),
    }
}

/// Whether an event reports a successfully decrypted wallet.
pub open spec fn is_wallet_success(e: DeployEvent) -> bool {
    e matches DeployEvent::WalletDecrypted(Ok(_))
}

/// Whether the flow still carries the keystore password in this state.
pub open spec fn holds_password(s: DeployState) -> bool {
    s is Compiling || s is Connecting
}

/// Law: the flow holds the keystore password only up to the decrypt request;
/// the request takes the password with it, and no later state carries a copy
/// — the secret's scope ends with the decrypt call.
pub proof fn lemma_password_leaves_with_decrypt(s: DeployState, e: DeployEvent)
    ensures
        step_spec(s, e) matches Some(r) ==> (r.1 is Decrypt ==> !holds_password(r.0)),
        step_spec(s, e) matches Some(r) ==> (!holds_password(s) ==> !holds_password(r.0)),
{
}

/// The requests a flow in state `s` makes over a sequence of events, in
/// order; an event a state is not waiting for is ignored.
pub open spec fn run_actions(s: DeployState, events: Seq<DeployEvent>) -> Seq<DeployAction>
    decreases events.len(),
{
    if events.len() == 0 {
        Seq::empty()
    } else {
        match step_spec(s, events[0]) {
            Some(r) => seq![r.1] + run_actions(r.0, events.drop_first()),
            None => run_actions(s, events.drop_first()),
        }
    }
}

/// Law: the flow asks for a transaction submission only as the direct answer
/// to a successfully decrypted wallet whose binding matches the resolved
/// chain identifier — and the submitted transaction is bound to exactly that
/// chain, so it can never be signed for a different domain.
pub proof fn lemma_submit_needs_bound_wallet(s: DeployState, e: DeployEvent)
    ensures
        step_spec(s, e) matches Some(r) ==> (r.1 matches DeployAction::Submit { tx } ==> {
            &&& s matches DeployState::Decrypting { chain_id, .. } && tx.chain_id == chain_id
            &&& e matches DeployEvent::WalletDecrypted(Ok(wallet)) && wallet.chain_id
                == tx.chain_id
        }),
{
}

/// Law: a wallet bound to a different chain than the one the endpoint
/// resolved to is refused deterministically: the flow ends with the chain
/// mismatch error and asks for no submission.
pub proof fn lemma_wrong_chain_refused(s: DeployState, e: DeployEvent)
    ensures
        s matches DeployState::Decrypting { chain_id, .. } ==> (e matches
            DeployEvent::WalletDecrypted(Ok(wallet)) ==> (wallet.chain_id != chain_id
            ==> step_spec(s, e) == Some(
            (
                DeployState::Done,
                DeployAction::Finished {
                    result: Err::<DeployedContract, DeployContractError>(
                        DeployContractError::WrongChain {
                            wallet_chain_id: wallet.chain_id,
                            chain_id,
                        },
                    ),
                },
            ),
        ))),
{
}

/// Law: a failed keystore decryption — a wrong password above all — ends the
/// flow at once with the decrypt error.
pub proof fn lemma_decrypt_failure_ends_flow(s: DeployState, e: DeployEvent)
    ensures
        s is Decrypting ==> (e matches DeployEvent::WalletDecrypted(Err(msg)) ==> step_spec(s, e)
            == Some(
            (
                DeployState::Done,
                DeployAction::Finished {
                    result: Err::<DeployedContract, DeployContractError>(
                        DeployContractError::DecryptKeystore(msg),
                    ),
                },
            ),
        )),
{
}

/// Law: a finished flow asks for nothing more, whatever events a driver
/// would still feed it. Together with the contract of
/// [`DeployContract::begin`] this says that a malformed endpoint URL causes
/// zero outside work — in particular zero transaction submissions —
/// regardless of whether compilation would have succeeded.
pub proof fn lemma_done_is_absorbing(events: Seq<DeployEvent>)
    ensures
        run_actions(DeployState::Done, events) =~= Seq::<DeployAction>::empty(),
    decreases events.len(),
{
    if events.len() > 0 {
        lemma_done_is_absorbing(events.drop_first());
    }
}

/// Law: as long as no event reports a successfully decrypted wallet — in
/// particular when every decryption attempt failed on a wrong password — the
/// flow never asks for a transaction submission, so no on-chain state can
/// change.
pub proof fn lemma_no_submission_without_wallet(s: DeployState, events: Seq<DeployEvent>)
    requires
        forall|j: int| 0 <= j < events.len() ==> !is_wallet_success(#[trigger] events[j]),
    ensures
        forall|i: int|
            0 <= i < run_actions(s, events).len() ==> !((#[trigger] run_actions(s, events)[i])
                is Submit),
    decreases events.len(),
{
    if events.len() > 0 {
        let rest = events.drop_first();
        assert forall|j: int| 0 <= j < rest.len() implies !is_wallet_success(
            #[trigger] rest[j],
        ) by {
            assert(rest[j] == events[j + 1]);
        }
        lemma_submit_needs_bound_wallet(s, events[0]);
        match step_spec(s, events[0]) {
            Some(r) => {
                lemma_no_submission_without_wallet(r.0, rest);
                assert(!is_wallet_success(events[0]));
                assert forall|i: int|
                    0 <= i < run_actions(s, events).len() implies !((#[trigger] run_actions(
                    s,
                    events,
                )[i]) is Submit) by {
                    if i > 0 {
                        assert(run_actions(s, events)[i] == run_actions(r.0, rest)[i - 1]);
                    }
                }
            },
            None => {
                lemma_no_submission_without_wallet(s, rest);
            },
        }
    }
}

/// Law: a malformed endpoint URL fails the request deterministically —
/// [`DeployContract::begin`] answers it with the URL error and a finished
/// flow — and no transaction is ever submitted afterwards, whatever events a
/// driver would feed the flow.
pub proof fn lemma_malformed_url_never_submits(
    req: DeployContract,
    r: (DeployState, DeployAction),
    events: Seq<DeployEvent>,
)
    requires
        !url_wellformed(req.url@),
        call_ensures(DeployContract::begin, (req,), r),
    ensures
        r.1 matches DeployAction::Finished { result } && result matches Err(e) && e is InvalidUrl,
        run_actions(r.0, events) =~= Seq::<DeployAction>::empty(),
{
    lemma_done_is_absorbing(events);
}

} // verus!
