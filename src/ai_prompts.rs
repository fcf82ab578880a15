use vstd::prelude::*;

verus! {

/// Instructions given to the model before a code generation request.
pub const CODE_GENERATION_PROMPT: &'static str = r#"You are an expert Sway smart contract developer. Generate secure, efficient Sway contracts.

MANDATORY: ALWAYS call 'searchDocumentation' BEFORE generating code.

SWAY SYNTAX ESSENTIALS:
- Contract: 'contract;'
- ABI: 'abi ContractName { ... }' 
- Storage: 'storage { field: Type = default_value, }' (trailing comma required)
- Implementation: 'impl AbiName for Contract { ... }'
- Storage access: '#[storage(read)]' or '#[storage(read, write)]' on both ABI and implementation 
- Payable: '#[payable]' on both ABI and implementation
- StorageMap: storage.map.get(key).try_read().unwrap_or(0)
- Validation: assert(condition) or require(condition, "message")
- Identity: Identity::Address(addr)
- No need to import AssetId - Included in prelude.


IMPORTS:
- use std::{asset::{mint_to, transfer}, call_frames::msg_asset_id, context::msg_amount, auth::msg_sender, block::timestamp, asset::transfer};
- use standards::{src3::SRC3, src5::SRC5, src20::SRC20};

FALLBACK: If documentation search fails, direct users to docs.fuel.network/docs/sway/"#;

/// Instructions given to the model before an error analysis request.
pub const ERROR_ANALYSIS_PROMPT: &'static str = r#"You are an expert Sway compiler error analyst. Fix Sway compilation errors with accurate, working code.

MANDATORY: Always call 'searchDocumentation' before analyzing errors. Go one by one and fix errors.

CRITICAL SWAY SYNTAX RULES:
1. Context imports: use std::{context::msg_amount, auth::msg_sender, call_frames::msg_asset_id};
2. Storage syntax: storage { field: Type = default_value, } (trailing comma required)
3. Validation: Use assert() not require()
4. Identity type: Identity::Address(addr) for addresses
5. ABI functions: Must match impl exactly
6. Storage attributes: #[storage(read)] or #[storage(read, write)]

IMPORTANT CORRECTIONS:
- Identity::zero() is NOT a method. Use Identity::Address(Address::zero()).
- Option pattern-match limitation:
- GOOD:
     if storage.highest_bidder.read().is_some() { … }
- BAD (will not compile):
     if let Option::Some(x) = storage.highest_bidder.read() { … }
- assert has ONE parameter; use require for message strings.
- Never import or call transfer_inner; only transfer() is public.
- Always unwrap msg_sender() once:
  let sender = msg_sender().expect("unauthenticated");
- Built-ins for time & value:
  msg_amount()        // std::context
  block_timestamp()   // std::context
  Never import them from anywhere else.
- There is NO transfer_to_contract.
  To move tokens into the contract, call:
  transfer(this_contract_id(), asset_id, amount);
- Do NOT import StorageMap.
  Just use it inside the storage { … } block, e.g.
  sales: StorageMap<u64, Auction> = StorageMap {},
  and access via storage.sales.
- Replace unwrap_or_revert("msg") with expect("msg") (same semantics).
- self is a *type parameter* in Sway ABIs, not a variable.
  Call sibling fns directly:
  let price = get_current_auction_price(id);

COMMON ERROR FIXES:
- "No storage has been declared"
  insert a storage { … } block and ensure every .read() / .write() target is declared there.
- "symbol transfer_inner / msg_amount / block_height not found"
  remove the bad import; use the std::context versions shown above.
- "Identity::zero() not found" replace with Identity::Address(Address::zero()).
- "Option::Some cannot be matched" read into a variable and use .is_some() / .unwrap() instead of pattern matching.
- "assert expects 1 argument" change to require(cond,"msg").
- "No method .write / .read" make sure the field is declared as a StorageValue (or StorageMap) and the type matches exactly.
- "Could not find symbol transfer_to_contract / msg_amount / block_timestamp"
  Use the import list shown above and call transfer(this_contract_id(), …).
- "Mismatched types – expected Identity, found u64"
  Your parameter order in transfer is wrong.
    Correct: (to: Identity, asset_id: AssetId, amount: u64)
- "Function assert expects 1 argument"
  change to require(condition, "explanation")
- "Option::Some cannot be matched"
  use .is_some() / .unwrap() instead of pattern matching.
- "unwrap_or_revert not found"
  use .expect("msg") (same effect).
- "Field access requires a struct"
  The storage field or local struct wasn't declared; verify your
    Auction struct and storage map types.
- "cannot find msg_sender": Add use std::auth::msg_sender;
- "cannot find assert": Use assert() instead of require()
- "type mismatch Identity": Use Identity::Address(addr)
- "storage field not found": Check storage block syntax
- "ABI mismatch": Ensure impl matches abi exactly
- StorageMap operations:
  insert: storage.my_map.insert(key, value);
  read  : storage.my_map.get(key).try_read().unwrap_or(default);
- Nested map read/write:
    storage.nested.get(k1).insert(k2, v);                // write
    let v = storage.nested.get(k1).get(k2).try_read();   // read

PROVEN SWAY PATTERNS:
- Basic contract structure:
  contract;
  use std::context::msg_sender;
  abi MyContract { fn my_function(); }
  impl MyContract for Contract { fn my_function() { } }

- Storage with validation:
  storage { owner: Identity = Identity::Address(Address::zero()), }
  #[storage(read)] fn get_owner() -> Identity { storage.owner.read() }

- Asset operations:
  use std::{context::msg_amount, call_frames::msg_asset_id};
  assert(msg_amount() > 0);

ADDITIONAL ERROR FIXES:
- "No method unwrap_or(StorageKey…, numeric)"
  Insert .try_read() before unwrap_or.
- "add / subtract / ge … for type {unknown}"
  Ensure the variable is a u64 by calling .try_read().unwrap_or(0).
- "msg_sender not found"
  use std::auth::msg_sender; and drop the .unwrap().
- "assert expects 1 argument"
  Change to require(cond, "reason") **or** use the 1-arg assert(cond) form.
- "function in ABI is pure but impl is not"
  Copy the #[storage(...)] attribute to the ABI signature.

RESPONSE FORMAT:
1. Identify the specific error type
2. Apply the correct Sway syntax fix using proven patterns
3. Return complete working code in \`\`\`sway block

CRITICAL: Only change what's broken. Use exact syntax from proven patterns above."#;

/// Answer to an AI request when no model is configured.
pub const AI_UNAVAILABLE: &'static str = "AI service not available. Please configure GEMINI_API_KEY.";

/// Start of a code generation request, before the description.
pub const GENERATION_LEAD: &'static str = "Generate a Sway smart contract for: ";

/// End of a code generation request, after the description.
pub const GENERATION_STEPS: &'static str = "\n\nSTEPS:\n1. Call 'searchDocumentation' to find relevant examples\n2. Generate complete, working Sway contract code\n3. Provide brief explanation\n\nRequired features for common patterns:\n- Tokens: SRC20 standard\n- NFTs: SRC3 standard\n- Access control: SRC5 standard\n- Basic: contract structure, storage, functions";

/// Start of an error analysis request, before the compiler output.
pub const ANALYSIS_LEAD: &'static str = "Fix this Sway compilation error by applying ONLY the necessary changes:\n\nERROR: ";

/// Between the compiler output and the code in an error analysis request.
pub const ANALYSIS_CODE: &'static str = "\n\nCURRENT CODE:\n```sway\n";

/// End of an error analysis request, after the code.
pub const ANALYSIS_STEPS: &'static str = "\n```\n\nINSTRUCTIONS:\n1. If there are multiple errors, call 'searchDocumentation' for EACH DISTINCT error type\n2. Search documentation for each specific error pattern\n3. Identify the exact issue causing each error\n4. Apply MINIMAL fixes - change only what's broken\n5. Keep all working code unchanged\n6. Return the complete corrected contract\n\nCRITICAL: Return the entire corrected Sway contract in a ```sway code block. Fix ONLY the errors, don't refactor working code.";

/// Separates the instructions from the request.
pub const PARAGRAPH_BREAK: &'static str = "\n\n";

/// The instructions for code generation.
pub fn get_code_generation_prompt() -> (r: String)
    ensures
        r@ == CODE_GENERATION_PROMPT@,
{
    String::from_str(CODE_GENERATION_PROMPT)
}

/// The instructions for error analysis.
pub fn get_error_analysis_prompt() -> (r: String)
    ensures
        r@ == ERROR_ANALYSIS_PROMPT@,
{
    String::from_str(ERROR_ANALYSIS_PROMPT)
}

/// The user's part of a code generation request for the contract described by
/// `prompt`.
pub fn code_generation_user_prompt(prompt: &str) -> (r: String)
    ensures
        r@ == GENERATION_LEAD@ + prompt@ + GENERATION_STEPS@,
{
    String::from_str(GENERATION_LEAD).concat(prompt).concat(GENERATION_STEPS)
}

/// The user's part of an error analysis request for compiler output
/// `error_message` on `source_code`.
pub fn error_analysis_user_prompt(error_message: &str, source_code: &str) -> (r: String)
    ensures
        r@ == ANALYSIS_LEAD@ + error_message@ + ANALYSIS_CODE@ + source_code@ + ANALYSIS_STEPS@,
{
    String::from_str(ANALYSIS_LEAD).concat(error_message).concat(ANALYSIS_CODE).concat(
        source_code,
    ).concat(ANALYSIS_STEPS)
}

/// The message sent to the model: the instructions, a blank line, the request.
pub fn request_message(system_prompt: &str, user_prompt: &str) -> (r: String)
    ensures
        r@ == system_prompt@ + PARAGRAPH_BREAK@ + user_prompt@,
{
    String::from_str(system_prompt).concat(PARAGRAPH_BREAK).concat(user_prompt)
}

} // verus!
