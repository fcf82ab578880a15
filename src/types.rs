use vstd::prelude::*;

verus! {

/// A source language that can be transpiled into Sway.
#[derive(Clone, Copy, Debug, PartialEq, Eq, Structural)]
pub enum Language {
    Solidity,
}

/// A Sway toolchain channel to compile with.
#[derive(Clone, Copy, Debug, PartialEq, Eq, Structural)]
pub enum Toolchain {
    Latest,
    Nightly,
    Testnet,
    Mainnet,
}

/// The name of a toolchain channel as the toolchain manager spells it.
pub open spec fn toolchain_name(t: Toolchain) -> Seq<char> {
    match t {
        Toolchain::Latest => "latest"@,
        Toolchain::Nightly => "nightly"@,
        Toolchain::Testnet => "testnet"@,
        Toolchain::Mainnet => "mainnet"@,
    }
}

impl Toolchain {
    /// The channel's name: `latest`, `nightly`, `testnet` or `mainnet`.
    pub fn as_str(&self) -> (r: &'static str)
        ensures
            r@ == toolchain_name(*self),
    {
        match self {
            Toolchain::Latest => "latest",
            Toolchain::Nightly => "nightly",
            Toolchain::Testnet => "testnet",
            Toolchain::Mainnet => "mainnet",
        }
    }
}

/// The compile request.
pub struct CompileRequest {
    pub contract: String,
    pub toolchain: Toolchain,
}

/// The response to a compile request.
pub struct CompileResponse {
    pub abi: String,
    pub bytecode: String,
    pub storage_slots: String,
    pub forc_version: String,
    pub error: Option<String>,
}

/// A contract's code and its language, for contracts in languages other than
/// Sway that can be transpiled.
#[derive(Clone)]
pub struct ContractCode {
    pub contract: String,
    pub language: Language,
}

/// The transpile request.
pub struct TranspileRequest {
    pub contract_code: ContractCode,
}

/// The response to a transpile request.
pub struct TranspileResponse {
    pub sway_contract: String,
    pub error: Option<String>,
}

/// The new gist request.
pub struct NewGistRequest {
    pub sway_contract: String,
    pub transpile_contract: ContractCode,
}

/// Information about a gist.
pub struct GistMeta {
    pub id: String,
    pub url: String,
}

/// The response to a new gist request.
pub struct NewGistResponse {
    pub gist: GistMeta,
    pub error: Option<String>,
}

/// The response to a gist request.
pub struct GistResponse {
    pub gist: GistMeta,
    pub sway_contract: String,
    pub transpile_contract: ContractCode,
    pub error: Option<String>,
}

/// The AI Sway code generation request.
pub struct SwayCodeGenerationRequest {
    pub prompt: String,
}

/// The response to an AI Sway code generation request.
pub struct SwayCodeGenerationResponse {
    pub code: String,
    pub explanation: String,
    pub suggestions: Vec<String>,
}

/// The AI error analysis request.
pub struct ErrorAnalysisRequest {
    pub error_message: String,
    pub source_code: String,
}

/// The response to an AI error analysis request.
pub struct ErrorAnalysisResponse {
    pub analysis: String,
    pub suggestions: Vec<String>,
    pub fixed_code: Option<String>,
}

/// A snapshot of one client's quota, as the status query reports it.
#[derive(Clone, Copy, Debug, PartialEq, Eq, Structural)]
pub struct RateLimitStatus {
    pub requests_remaining: u32,
    pub requests_limit: u32,
    /// When the current window ends, in seconds since the Unix epoch.
    pub reset_time: Option<i64>,
    pub window_duration_seconds: u64,
}

/// The body of a "too many requests" response.
pub struct RateLimitErrorResponse {
    pub error: String,
    pub requests_limit: u32,
    /// When the client's window ends, in seconds since the Unix epoch.
    pub reset_time: i64,
    pub retry_after_seconds: u64,
}

/// An empty response.
pub struct EmptyResponse;

} // verus!
