//! Selecting the one contract definition that a compiler run must yield.
//!
//! Compilation itself runs an outside toolchain and is a driver's job; what
//! is verified here is the rule that a source file must hold exactly one
//! contract definition — zero or several are hard failures, never a partial
//! artifact.

use vstd::prelude::*;

use crate::eth::DeployContractError;

verus! {

/// One contract definition as the compiler toolchain reports it: its
/// interface description and its deployable bytecode.
#[derive(Debug, PartialEq, Eq, Clone)]
pub struct ContractDef {
    /// Structured interface description of the contract, as text.
    pub abi: String,
    /// Executable bytecode of the contract.
    pub bytecode: Vec<u8>,
}

impl ContractDef {
    /// A proper contract definition has a non-empty interface description
    /// and non-empty bytecode.
    pub open spec fn wf(&self) -> bool {
        self.abi@.len() > 0 && self.bytecode@.len() > 0
    }
}

/// The artifact of a successful compilation, derived from exactly one
/// contract definition.
#[derive(Debug, PartialEq, Eq, Clone)]
pub struct CompiledArtifact {
    /// Structured interface description of the contract, as text.
    pub abi: String,
    /// Executable bytecode of the contract.
    pub bytecode: Vec<u8>,
}

impl CompiledArtifact {
    /// A usable artifact has a non-empty interface description and
    /// non-empty bytecode.
    pub open spec fn wf(&self) -> bool {
        self.abi@.len() > 0 && self.bytecode@.len() > 0
    }
}

/// What selecting the single contract definition out of a compiler run
/// yields: the artifact when there is exactly one definition, and the
/// distinct count error otherwise.
pub open spec fn select_spec(contracts: Seq<ContractDef>) -> Result<
    CompiledArtifact,
    DeployContractError,
> {
    if contracts.len() == 0 {
        Err(DeployContractError::NoContracts)
    } else if contracts.len() > 1 {
        Err(DeployContractError::TooManyContracts)
    } else {
        Ok(CompiledArtifact { abi: contracts[0].abi, bytecode: contracts[0].bytecode })
    }
}

/// Picks the single contract definition out of a compiler run, refusing
/// runs with zero or with more than one definition.
pub fn select_contract(contracts: Vec<ContractDef>) -> (r: Result<
    CompiledArtifact,
    DeployContractError,
>)
    ensures
        r == select_spec(contracts@),
{
    if contracts.len() == 0 {
        Err(DeployContractError::NoContracts)
    } else if contracts.len() > 1 {
        Err(DeployContractError::TooManyContracts)
    } else {
        let mut found = contracts;
        let single = found.remove(0);
        Ok(CompiledArtifact { abi: single.abi, bytecode: single.bytecode })
    }
}

/// Law: a compiler run that found exactly one proper contract definition
/// compiles successfully, and the artifact keeps that definition's
/// non-empty interface description and non-empty bytecode.
pub proof fn lemma_single_contract_yields_artifact(contracts: Seq<ContractDef>)
    requires
        contracts.len() == 1,
        contracts[0].wf(),
    ensures
        select_spec(contracts) is Ok,
        (select_spec(contracts)->Ok_0).wf(),
        (select_spec(contracts)->Ok_0).abi == contracts[0].abi,
        (select_spec(contracts)->Ok_0).bytecode == contracts[0].bytecode,
{
}

/// Law: a compiler run with zero or with several contract definitions never
/// yields an artifact, and fails with the distinct error for each count.
pub proof fn lemma_wrong_contract_count_fails(contracts: Seq<ContractDef>)
    requires
        contracts.len() != 1,
    ensures
        select_spec(contracts) is Err,
        contracts.len() == 0 ==> select_spec(contracts)->Err_0 is NoContracts,
        contracts.len() > 1 ==> select_spec(contracts)->Err_0 is TooManyContracts,
{
}

} // verus!
