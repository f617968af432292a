use ipfs_eth::compile::select_contract;
use ipfs_eth::compile::ContractDef;
use ipfs_eth::eth::step;
use ipfs_eth::eth::validate_rpc_url;
use ipfs_eth::eth::CompileFailure;
use ipfs_eth::eth::DeployAction;
use ipfs_eth::eth::DeployContract;
use ipfs_eth::eth::DeployContractError;
use ipfs_eth::eth::DeployEvent;
use ipfs_eth::eth::DeployState;
use ipfs_eth::eth::DeployedContract;
use ipfs_eth::eth::KeystorePassword;
use ipfs_eth::eth::Wallet;
use ipfs_eth::ipfs::UploadFileError;
use ipfs_eth::pipeline::after_upload;
use ipfs_eth::pipeline::DeployTemplate;

fn sample_contract() -> ContractDef {
    ContractDef {
        abi: String::from("[{\"type\":\"constructor\",\"inputs\":[{\"type\":\"string\"}]}]"),
        bytecode: vec![0x60, 0x80, 0x60, 0x40],
    }
}

fn sample_request(url: &str, cid: &str) -> DeployContract {
    DeployContract::new(
        String::from("contract.sol"),
        String::from(url),
        String::from(cid),
        String::from("keystore"),
        String::from("1"),
    )
}

/// Drives a deployment flow against a simulated toolchain and ledger.
///
/// The simulated ledger resolves to `chain_id`; decryption yields a wallet
/// bound to `wallet_chain` or fails when it is `None`. Returns the flow's
/// result, how many transactions were submitted, and what the deployed
/// contract's constructor stored.
fn drive(
    request: DeployContract,
    chain_id: u64,
    wallet_chain: Option<u64>,
) -> (Result<DeployedContract, DeployContractError>, usize, Option<String>) {
    let mut submissions: usize = 0;
    let mut stored: Option<String> = None;
    let (mut state, mut action) = request.begin();
    loop {
        let event = match action {
            DeployAction::Compile { src } => {
                assert_eq!(src, "contract.sol");
                DeployEvent::Compiled(Ok(vec![sample_contract()]))
            }
            DeployAction::QueryChainId { url: _ } => DeployEvent::ChainResolved(Ok(chain_id)),
            DeployAction::Decrypt { keystore_path, keystore_password, chain_id: bind_to } => {
                assert_eq!(keystore_path, "keystore");
                assert_eq!(keystore_password.expose(), "1");
                match wallet_chain {
                    Some(wallet_chain_id) => DeployEvent::WalletDecrypted(Ok(Wallet {
                        address: vec![0xab, 0xcd],
                        chain_id: wallet_chain_id,
                    })),
                    None => {
                        assert_eq!(bind_to, chain_id);
                        DeployEvent::WalletDecrypted(Err(String::from("invalid password")))
                    }
                }
            }
            DeployAction::Submit { tx } => {
                submissions += 1;
                assert_eq!(tx.chain_id, chain_id);
                assert_eq!(tx.bytecode, sample_contract().bytecode);
                // the simulated constructor stores its sole argument
                stored = Some(tx.constructor_args.clone());
                DeployEvent::TxConfirmed(Ok(vec![0xde, 0xad, 0xbe, 0xef]))
            }
            DeployAction::Finished { result } => return (result, submissions, stored),
        };
        assert!(state.expects_event(&event));
        let next = step(state, event);
        state = next.0;
        action = next.1;
    }
}

#[test]
fn wellformed_rpc_urls_are_accepted() {
    assert!(validate_rpc_url("http://127.0.0.1:8545").is_ok());
    assert!(validate_rpc_url("https://example.net/rpc").is_ok());
    assert!(validate_rpc_url("ws://127.0.0.1:8546").is_ok());
}

#[test]
fn malformed_rpc_url_is_rejected() {
    let verdict = validate_rpc_url("not-a-url");
    assert!(matches!(verdict, Err(DeployContractError::InvalidUrl(_))));
}

#[test]
fn single_contract_source_compiles_to_artifact() {
    let artifact = select_contract(vec![sample_contract()]).expect("one definition must compile");
    assert!(!artifact.abi.is_empty());
    assert!(!artifact.bytecode.is_empty());
    assert_eq!(artifact.abi, sample_contract().abi);
    assert_eq!(artifact.bytecode, sample_contract().bytecode);
}

#[test]
fn contractless_source_fails_without_artifact() {
    let verdict = select_contract(Vec::new());
    assert_eq!(verdict, Err(DeployContractError::NoContracts));
}

#[test]
fn ambiguous_source_fails_without_artifact() {
    let verdict = select_contract(vec![sample_contract(), sample_contract()]);
    assert_eq!(verdict, Err(DeployContractError::TooManyContracts));
}

#[test]
fn deploys_contract_storing_uploaded_cid() {
    // the upload stage answered with the content identifier of a fixed image
    let cid = String::from("QmPZ9gcCEpqKTo6aq61g2nXGUhM4iCL3ewB6LDXZCtioEB");
    let template = DeployTemplate {
        src: String::from("contract.sol"),
        url: String::from("http://127.0.0.1:8545"),
        keystore_path: String::from("keystore"),
        keystore_password: KeystorePassword::from_plain(String::from("1")),
    };
    let request = after_upload(template, Ok(cid.clone())).expect("upload succeeded");
    assert_eq!(request.constructor_args, cid);

    let (result, submissions, stored) = drive(request, 1337, Some(1337));
    let contract = result.expect("deployment must succeed");
    assert_eq!(submissions, 1);
    assert_eq!(contract.address, vec![0xde, 0xad, 0xbe, 0xef]);
    assert_eq!(contract.abi, sample_contract().abi);
    // the contract's read accessor yields exactly the CID that was passed in
    assert_eq!(stored, Some(cid));
}

#[test]
fn wrong_password_fails_without_any_submission() {
    let (result, submissions, stored) = drive(sample_request("http://127.0.0.1:8545", "QmCid"), 5, None);
    match result {
        Err(DeployContractError::DecryptKeystore(msg)) => assert_eq!(msg, "invalid password"),
        other => panic!("expected a decrypt error, got {other:?}"),
    }
    assert_eq!(submissions, 0);
    assert_eq!(stored, None);
}

#[test]
fn wallet_bound_to_other_chain_is_refused() {
    let (result, submissions, _) = drive(sample_request("http://127.0.0.1:8545", "QmCid"), 5, Some(6));
    assert_eq!(
        result,
        Err(DeployContractError::WrongChain { wallet_chain_id: 6, chain_id: 5 })
    );
    assert_eq!(submissions, 0);
}

#[test]
fn malformed_url_fails_before_any_work() {
    let (state, action) = sample_request("not-a-url", "QmCid").begin();
    match action {
        DeployAction::Finished { result } => {
            assert!(matches!(result, Err(DeployContractError::InvalidUrl(_))));
        }
        _ => panic!("a malformed URL must end the flow at once"),
    }
    // the finished flow asks for nothing and accepts nothing further
    let probe = DeployEvent::Compiled(Ok(vec![sample_contract()]));
    assert!(!state.expects_event(&probe));
}

#[test]
fn failed_compiler_worker_is_fatal() {
    let (state, _) = sample_request("http://127.0.0.1:8545", "QmCid").begin();
    let event = DeployEvent::Compiled(Err(CompileFailure::TaskFailed(String::from("worker gone"))));
    assert!(state.expects_event(&event));
    let (_, action) = step(state, event);
    match action {
        DeployAction::Finished { result } => {
            assert_eq!(result, Err(DeployContractError::TokioTaskError(String::from("worker gone"))));
        }
        _ => panic!("a dead compiler worker must end the flow"),
    }
}

#[test]
fn toolchain_failure_is_fatal() {
    let (state, _) = sample_request("http://127.0.0.1:8545", "QmCid").begin();
    let event = DeployEvent::Compiled(Err(CompileFailure::Toolchain(String::from("syntax error"))));
    let (_, action) = step(state, event);
    match action {
        DeployAction::Finished { result } => {
            assert_eq!(result, Err(DeployContractError::SolcError(String::from("syntax error"))));
        }
        _ => panic!("a toolchain failure must end the flow"),
    }
}

#[test]
fn chain_id_query_failure_is_fatal() {
    let (state, _) = sample_request("http://127.0.0.1:8545", "QmCid").begin();
    let (state, _) = step(state, DeployEvent::Compiled(Ok(vec![sample_contract()])));
    let event = DeployEvent::ChainResolved(Err(String::from("endpoint unreachable")));
    assert!(state.expects_event(&event));
    let (_, action) = step(state, event);
    match action {
        DeployAction::Finished { result } => {
            assert_eq!(result, Err(DeployContractError::GetChainId(String::from("endpoint unreachable"))));
        }
        _ => panic!("a failed chain query must end the flow"),
    }
}

#[test]
fn rejected_transaction_is_fatal() {
    let (state, _) = sample_request("http://127.0.0.1:8545", "QmCid").begin();
    let (state, _) = step(state, DeployEvent::Compiled(Ok(vec![sample_contract()])));
    let (state, _) = step(state, DeployEvent::ChainResolved(Ok(5)));
    let (state, action) = step(
        state,
        DeployEvent::WalletDecrypted(Ok(Wallet { address: vec![0xab], chain_id: 5 })),
    );
    assert!(matches!(action, DeployAction::Submit { .. }));
    let event = DeployEvent::TxConfirmed(Err(String::from("rejected")));
    let (_, action) = step(state, event);
    match action {
        DeployAction::Finished { result } => {
            assert_eq!(result, Err(DeployContractError::DeploymentError(String::from("rejected"))));
        }
        _ => panic!("a rejected transaction must end the flow"),
    }
}

#[test]
fn upload_failure_aborts_pipeline() {
    let template = DeployTemplate {
        src: String::from("contract.sol"),
        url: String::from("http://127.0.0.1:8545"),
        keystore_path: String::from("keystore"),
        keystore_password: KeystorePassword::from_plain(String::from("1")),
    };
    let verdict = after_upload(template, Err(UploadFileError::OpenFile(String::from("no such file"))));
    match verdict {
        Err(UploadFileError::OpenFile(msg)) => assert_eq!(msg, "no such file"),
        _ => panic!("an upload failure must abort the pipeline"),
    }
}

#[test]
fn transport_failure_aborts_pipeline() {
    let template = DeployTemplate {
        src: String::from("contract.sol"),
        url: String::from("http://127.0.0.1:8545"),
        keystore_path: String::from("keystore"),
        keystore_password: KeystorePassword::from_plain(String::from("1")),
    };
    let verdict = after_upload(template, Err(UploadFileError::IpfsAdd(String::from("node down"))));
    match verdict {
        Err(UploadFileError::IpfsAdd(msg)) => assert_eq!(msg, "node down"),
        _ => panic!("a transport failure must abort the pipeline"),
    }
}
