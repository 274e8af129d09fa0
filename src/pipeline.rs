//! The staged pipeline that turns a program call into an execution and, on
//! chain, into a transaction: the decisions of each stage, on plain values.
use vstd::prelude::*;

use crate::key_cache::{cached_pair, CacheKey, KeyCache};
use crate::resolver::{
    find_file, lookup_file, named_view, parse_program, parse_source, NamedText, ProgramSource, ProgramSourceView,
};
use crate::snark::{
    address_of, check_identifier, derive_address, read_record, record_owner_and_gates,
    valid_identifier,
};

verus! {

/// Why a stage of the pipeline failed.
#[derive(Clone, Copy, Debug, PartialEq, Eq, Structural)]
pub enum ExecutionError {
    /// The program text is not a program.
    InvalidProgram,
    /// The function name is not an identifier.
    InvalidFunctionName,
    /// Another program is already loaded under the same identifier.
    ProgramMismatch,
    /// The process refused the program.
    ProgramRejected,
    /// Only one of a proving key and a verifying key was supplied.
    IncompleteKeyPair,
    /// An input is not a string.
    InvalidInput,
    /// A key pair could not be cached as a whole.
    CacheCorruption,
    /// The private key is not a valid private key.
    InvalidPrivateKey,
    /// Authorizing the call failed.
    AuthorizationFailed,
    /// Executing the call failed.
    ExecutionFailed,
    /// The network query for the inclusion witnesses failed.
    QueryFailed,
    /// Proving inclusion failed.
    InclusionFailed,
    /// The fee record is not a record.
    InvalidFeeRecord,
    /// The fee record is not owned by the caller.
    FeeRecordNotOwned,
    /// The fee record holds less than the fee.
    InsufficientFunds,
    /// Executing or proving the fee failed.
    FeeFailed,
    /// Assembling the transaction failed.
    AssemblyFailed,
}

/// An input handed to a call: a string that names a typed value, or anything else.
#[derive(Clone, Debug)]
pub enum InputArg {
    Text(String),
    Other,
}

pub open spec fn all_text(inputs: Seq<InputArg>) -> bool {
    forall|i: int| 0 <= i < inputs.len() ==> inputs[i] is Text
}

/// Takes the text of each input; fails where an input is not a string.
pub fn parse_inputs(inputs: &Vec<InputArg>) -> (r: Result<Vec<String>, ExecutionError>)
    ensures
        match r {
            Ok(v) => all_text(inputs@) && v@.len() == inputs@.len() && forall|i: int|
                0 <= i < v@.len() ==> inputs@[i] == InputArg::Text(#[trigger] v@[i]),
            Err(e) => !all_text(inputs@) && e == ExecutionError::InvalidInput,
        },
{
    let mut out: Vec<String> = Vec::new();
    let mut i: usize = 0;
    while i < inputs.len()
        invariant
            i <= inputs@.len(),
            out@.len() == i,
            forall|j: int| 0 <= j < i ==> inputs@[j] == InputArg::Text(#[trigger] out@[j]),
        decreases inputs.len() - i,
    {
        match &inputs[i] {
            InputArg::Text(s) => out.push(s.clone()),
            InputArg::Other => return Err(ExecutionError::InvalidInput),
        }
        i += 1;
    }
    assert forall|j: int| 0 <= j < inputs@.len() implies inputs@[j] is Text by {
        assert(inputs@[j] == InputArg::Text(out@[j]));
    }
    Ok(out)
}

/// What loading a program into the execution context asks of the process.
#[derive(Clone, Copy, Debug, PartialEq, Eq, Structural)]
pub enum LoadPlan {
    /// The protocol's own credits program: the process always holds it.
    Native,
    /// The same program is loaded already.
    AlreadyLoaded,
    /// The program is new: add it to the process, then record it.
    Register,
}

/// The identifier of the protocol's credits program.
pub open spec fn credits_id() -> Seq<char> {
    "credits.aleo"@
}

/// How a parsed program is loaded for a call, given whether the function
/// name is an identifier and the programs `registry` holds (identifier, text).
pub open spec fn plan_spec(registry: Seq<(Seq<char>, Seq<char>)>, src: ProgramSourceView, function_valid: bool) -> Result<LoadPlan, ExecutionError> {
    if !function_valid {
        Err(ExecutionError::InvalidFunctionName)
    } else if src.id == credits_id() {
        Ok(LoadPlan::Native)
    } else {
        match lookup_file(registry, src.id) {
            Some(t) => if t == src.text {
                Ok(LoadPlan::AlreadyLoaded)
            } else {
                Err(ExecutionError::ProgramMismatch)
            },
            None => Ok(LoadPlan::Register),
        }
    }
}

/// How the call of `function` in the program `text` is loaded.
pub open spec fn load_plan_spec(registry: Seq<(Seq<char>, Seq<char>)>, text: Seq<char>, function: Seq<char>) -> Result<(ProgramSourceView, LoadPlan), ExecutionError> {
    match parse_source(text) {
        Err(_) => Err(ExecutionError::InvalidProgram),
        Ok(src) => match plan_spec(registry, src, valid_identifier(function)) {
            Ok(p) => Ok((src, p)),
            Err(e) => Err(e),
        },
    }
}

/// How a call obtains its key pair.
#[derive(Clone, Debug)]
pub enum KeyChoice<PK, VK> {
    /// The cache holds the pair: hand it to the process.
    Cached,
    /// The caller supplied the pair: hand it to the process.
    Provided(PK, VK),
    /// Neither: the process synthesizes the pair.
    Synthesize,
}

/// The key choice for `key`, given the cache's contents and the caller's overrides.
pub open spec fn select_spec<PK, VK>(m: Map<CacheKey, (PK, VK)>, key: CacheKey, pk: Option<PK>, vk: Option<VK>) -> Result<KeyChoice<PK, VK>, ExecutionError> {
    if pk is Some != vk is Some {
        Err(ExecutionError::IncompleteKeyPair)
    } else if m.contains_key(key) {
        Ok(KeyChoice::Cached)
    } else {
        match (pk, vk) {
            (Some(p), Some(v)) => Ok(KeyChoice::Provided(p, v)),
            _ => Ok(KeyChoice::Synthesize),
        }
    }
}

/// The cache after a call with `key` read its keys `(pk, vk)` back from the
/// process; `None` for a half that could not be read.
pub open spec fn store_spec<PK, VK>(m: Map<CacheKey, (PK, VK)>, cache: bool, key: CacheKey, pk: Option<PK>, vk: Option<VK>) -> Result<Map<CacheKey, (PK, VK)>, ExecutionError> {
    if !cache || m.contains_key(key) {
        Ok(m)
    } else {
        match (pk, vk) {
            (Some(p), Some(v)) => Ok(m.insert(key, (p, v))),
            _ => Err(ExecutionError::CacheCorruption),
        }
    }
}

/// The programs loaded and the key pairs cached for calls.
#[derive(Clone, Debug)]
pub struct ExecutionContext<PK, VK> {
    programs: Vec<NamedText>,
    keys: KeyCache<PK, VK>,
}

impl<PK, VK> ExecutionContext<PK, VK> {
    /// The loaded programs: identifier and text, in order of loading.
    pub closed spec fn registry(&self) -> Seq<(Seq<char>, Seq<char>)> {
        named_view(self.programs@)
    }

    /// The cached key pairs.
    pub closed spec fn keys(&self) -> Map<CacheKey, (PK, VK)> {
        self.keys@
    }

    /// A fresh context: no program loaded, no key cached.
    pub fn new() -> (r: Self)
        ensures
            r.registry() == Seq::<(Seq<char>, Seq<char>)>::empty(),
            r.keys() == Map::<CacheKey, (PK, VK)>::empty(),
    {
        let r = ExecutionContext { programs: Vec::new(), keys: KeyCache::new() };
        assert(r.registry() =~= Seq::<(Seq<char>, Seq<char>)>::empty());
        r
    }

    /// The key cache.
    pub fn key_cache(&self) -> (r: &KeyCache<PK, VK>)
        ensures
            r@ == self.keys(),
    {
        &self.keys
    }

    /// Parses the program and the function name of a call, and decides how
    /// the program is loaded: a program of the same identifier with another
    /// text is refused.
    pub fn plan_load(&self, program: &String, function: &String) -> (r: Result<(ProgramSource, LoadPlan), ExecutionError>)
        ensures
            match r {
                Ok((s, p)) => load_plan_spec(self.registry(), program@, function@) == Ok::<_, ExecutionError>((s@, p)),
                Err(e) => load_plan_spec(self.registry(), program@, function@) == Err::<(ProgramSourceView, LoadPlan), _>(e),
            },
    {
        let src = match parse_program(program) {
            Ok(s) => s,
            Err(_) => return Err(ExecutionError::InvalidProgram),
        };
        let function_valid = check_identifier(function);
        match self.plan_for_source(&src, function_valid) {
            Ok(p) => Ok((src, p)),
            Err(e) => Err(e),
        }
    }

    /// Decides how a parsed program is loaded for a call, given whether the
    /// function name is an identifier.
    pub fn plan_for_source(&self, src: &ProgramSource, function_valid: bool) -> (r: Result<LoadPlan, ExecutionError>)
        ensures
            r == plan_spec(self.registry(), src@, function_valid),
    {
        if !function_valid {
            return Err(ExecutionError::InvalidFunctionName);
        }
        let credits = "credits.aleo".to_owned();
        proof {
            reveal_strlit("credits.aleo");
        }
        if src.id == credits {
            return Ok(LoadPlan::Native);
        }
        match find_file(&self.programs, &src.id) {
            Some(t) => {
                if t == src.text {
                    Ok(LoadPlan::AlreadyLoaded)
                } else {
                    Err(ExecutionError::ProgramMismatch)
                }
            },
            None => Ok(LoadPlan::Register),
        }
    }

    /// Records a program that the process has accepted.
    pub fn record_program(&mut self, program: &ProgramSource)
        ensures
            final(self).registry() == old(self).registry().push((program@.id, program@.text)),
            final(self).keys() == old(self).keys(),
    {
        self.programs.push(NamedText { name: program.id.clone(), text: program.text.clone() });
        assert(self.registry() =~= old(self).registry().push((program@.id, program@.text)));
    }

    /// Decides where the keys of the call `(program_id, function_id)` come
    /// from. Supplying one half of a pair fails before the cache is read; a
    /// cached pair stands over a supplied one.
    pub fn select_keys(
        &self,
        program_id: &String,
        function_id: &String,
        proving_key: Option<PK>,
        verifying_key: Option<VK>,
    ) -> (r: Result<KeyChoice<PK, VK>, ExecutionError>)
        ensures
            r == select_spec(self.keys(), (program_id@, function_id@), proving_key, verifying_key),
    {
        if proving_key.is_some() != verifying_key.is_some() {
            return Err(ExecutionError::IncompleteKeyPair);
        }
        if self.keys.contains(program_id, function_id) {
            return Ok(KeyChoice::Cached);
        }
        match (proving_key, verifying_key) {
            (Some(p), Some(v)) => Ok(KeyChoice::Provided(p, v)),
            _ => Ok(KeyChoice::Synthesize),
        }
    }

    /// After a call, caches the keys read back from the process when caching
    /// is on and no pair is cached yet. Both halves go in together or the
    /// cache stays as it was and the call fails.
    pub fn store_keys(
        &mut self,
        cache: bool,
        program_id: &String,
        function_id: &String,
        proving_key: Option<PK>,
        verifying_key: Option<VK>,
    ) -> (r: Result<(), ExecutionError>)
        ensures
            final(self).registry() == old(self).registry(),
            match store_spec(old(self).keys(), cache, (program_id@, function_id@), proving_key, verifying_key) {
                Ok(m) => r is Ok && final(self).keys() == m,
                Err(e) => r == Err::<(), _>(e) && final(self).keys() == old(self).keys(),
            },
    {
        if !cache || self.keys.contains(program_id, function_id) {
            return Ok(());
        }
        match (proving_key, verifying_key) {
            (Some(p), Some(v)) => {
                self.keys.put(program_id.clone(), function_id.clone(), p, v);
                Ok(())
            },
            _ => Err(ExecutionError::CacheCorruption),
        }
    }
}

/// What a call is to do, once its inputs, program, function and keys are settled.
#[derive(Clone, Debug)]
pub struct CallPlan<PK, VK> {
    pub inputs: Vec<String>,
    pub program: ProgramSource,
    pub function: String,
    pub load: LoadPlan,
    pub keys: KeyChoice<PK, VK>,
}

/// The decisions that open a call, in order: the inputs, the program and the
/// function name, how the program is loaded, and where the keys come from.
pub open spec fn begin_spec<PK, VK>(
    registry: Seq<(Seq<char>, Seq<char>)>,
    keys: Map<CacheKey, (PK, VK)>,
    inputs: Seq<InputArg>,
    program: Seq<char>,
    function: Seq<char>,
    pk: Option<PK>,
    vk: Option<VK>,
) -> Result<(ProgramSourceView, LoadPlan, KeyChoice<PK, VK>), ExecutionError> {
    if !all_text(inputs) {
        Err(ExecutionError::InvalidInput)
    } else {
        match load_plan_spec(registry, program, function) {
            Err(e) => Err(e),
            Ok((src, plan)) => match select_spec(keys, (src.id, function), pk, vk) {
                Err(e) => Err(e),
                Ok(k) => Ok((src, plan, k)),
            },
        }
    }
}

/// Runs the decisions of calls against one execution context. With caching
/// on, a call works in the context kept here, and what it loads and caches
/// stays for the next call; with caching off, it works in a fresh context and
/// leaves nothing behind.
#[derive(Clone, Debug)]
pub struct Orchestrator<PK, VK> {
    context: ExecutionContext<PK, VK>,
}

impl<PK, VK> Orchestrator<PK, VK> {
    /// The context kept across cached calls.
    pub closed spec fn kept(&self) -> ExecutionContext<PK, VK> {
        self.context
    }

    /// The programs that a call with caching `cache` starts from.
    pub open spec fn call_registry(&self, cache: bool) -> Seq<(Seq<char>, Seq<char>)> {
        if cache {
            self.kept().registry()
        } else {
            Seq::empty()
        }
    }

    /// The key pairs that a call with caching `cache` starts from.
    pub open spec fn call_keys(&self, cache: bool) -> Map<CacheKey, (PK, VK)> {
        if cache {
            self.kept().keys()
        } else {
            Map::empty()
        }
    }

    /// An orchestrator with an empty context.
    pub fn new() -> (r: Self)
        ensures
            r.kept().registry() == Seq::<(Seq<char>, Seq<char>)>::empty(),
            r.kept().keys() == Map::<CacheKey, (PK, VK)>::empty(),
    {
        Orchestrator { context: ExecutionContext::new() }
    }

    /// The context kept across cached calls.
    pub fn context(&self) -> (r: &ExecutionContext<PK, VK>)
        ensures
            *r == self.kept(),
    {
        &self.context
    }

    /// Opens a call: checks its inputs, parses its program and function name,
    /// decides how the program is loaded and where its keys come from.
    pub fn begin_call(
        &self,
        cache: bool,
        inputs: &Vec<InputArg>,
        program: &String,
        function: &String,
        proving_key: Option<PK>,
        verifying_key: Option<VK>,
    ) -> (r: Result<CallPlan<PK, VK>, ExecutionError>)
        ensures
            match r {
                Ok(plan) => {
                    &&& begin_spec(self.call_registry(cache), self.call_keys(cache), inputs@, program@, function@, proving_key, verifying_key)
                        == Ok::<_, ExecutionError>((plan.program@, plan.load, plan.keys))
                    &&& plan.function@ == function@
                    &&& plan.inputs@.len() == inputs@.len()
                    &&& forall|i: int| 0 <= i < inputs@.len() ==> inputs@[i] == InputArg::Text(#[trigger] plan.inputs@[i])
                },
                Err(e) => begin_spec(self.call_registry(cache), self.call_keys(cache), inputs@, program@, function@, proving_key, verifying_key)
                    == Err::<(ProgramSourceView, LoadPlan, KeyChoice<PK, VK>), _>(e),
            },
    {
        let texts = match parse_inputs(inputs) {
            Ok(v) => v,
            Err(e) => return Err(e),
        };
        let fresh: ExecutionContext<PK, VK> = ExecutionContext::new();
        let ctx = if cache { &self.context } else { &fresh };
        let (src, load) = match ctx.plan_load(program, function) {
            Ok(p) => p,
            Err(e) => return Err(e),
        };
        let keys = match ctx.select_keys(&src.id, function, proving_key, verifying_key) {
            Ok(k) => k,
            Err(e) => return Err(e),
        };
        Ok(CallPlan { inputs: texts, program: src, function: function.clone(), load, keys })
    }

    /// Records a program that the process of a call has accepted; kept only
    /// with caching on.
    pub fn program_loaded(&mut self, cache: bool, program: &ProgramSource)
        ensures
            cache ==> final(self).kept().registry() == old(self).kept().registry().push((program@.id, program@.text)),
            !cache ==> final(self).kept() == old(self).kept(),
            final(self).kept().keys() == old(self).kept().keys(),
    {
        if cache {
            self.context.record_program(program);
        }
    }

    /// Closes a call with the keys read back from its process: with caching
    /// on they are cached as a pair, unless a pair is cached already.
    pub fn finish_call(
        &mut self,
        cache: bool,
        program_id: &String,
        function: &String,
        proving_key: Option<PK>,
        verifying_key: Option<VK>,
    ) -> (r: Result<(), ExecutionError>)
        ensures
            final(self).kept().registry() == old(self).kept().registry(),
            !cache ==> r is Ok && final(self).kept() == old(self).kept(),
            match store_spec(old(self).kept().keys(), cache, (program_id@, function@), proving_key, verifying_key) {
                Ok(m) => r is Ok && final(self).kept().keys() == m,
                Err(e) => r == Err::<(), _>(e) && final(self).kept().keys() == old(self).kept().keys(),
            },
    {
        if !cache {
            return Ok(());
        }
        self.context.store_keys(cache, program_id, function, proving_key, verifying_key)
    }
}

/// A call without caching starts from a fresh context: it never finds a
/// cached pair, and never a program loaded by an earlier call.
pub proof fn lemma_uncached_call_starts_fresh<PK, VK>(
    o: Orchestrator<PK, VK>,
    inputs: Seq<InputArg>,
    program: Seq<char>,
    function: Seq<char>,
    pk: Option<PK>,
    vk: Option<VK>,
)
    ensures
        begin_spec(o.call_registry(false), o.call_keys(false), inputs, program, function, pk, vk) matches Ok(t) ==> {
            &&& !(t.2 is Cached)
            &&& t.1 != LoadPlan::AlreadyLoaded
        },
{
}

/// With caching on, once a first call of a function has cached the keys it
/// read back, a second call of the same function finds them cached and
/// synthesizes nothing, whatever its program was loaded by.
pub proof fn lemma_second_cached_call_hits<PK, VK>(
    registry: Seq<(Seq<char>, Seq<char>)>,
    registry2: Seq<(Seq<char>, Seq<char>)>,
    m: Map<CacheKey, (PK, VK)>,
    inputs: Seq<InputArg>,
    program: Seq<char>,
    function: Seq<char>,
    pk: PK,
    vk: VK,
)
    requires
        begin_spec(registry, m, inputs, program, function, None::<PK>, None::<VK>) is Ok,
        load_plan_spec(registry2, program, function) is Ok,
    ensures
        ({
            let id = begin_spec(registry, m, inputs, program, function, None::<PK>, None::<VK>)->Ok_0.0.id;
            let m2 = store_spec(m, true, (id, function), Some(pk), Some(vk))->Ok_0;
            begin_spec(registry2, m2, inputs, program, function, None::<PK>, None::<VK>) matches Ok(t) && t.2 is Cached
        }),
{
}

/// Whether a fee record can pay `fee` for the caller, from the caller's
/// address (`None` where the private key is invalid) and the record's owner
/// and balance (`None` where the text is not a record).
pub open spec fn fee_decision_spec(address: Option<Seq<char>>, record: Option<(Seq<char>, u64)>, fee: u64) -> Result<u64, ExecutionError> {
    match address {
        None => Err(ExecutionError::InvalidPrivateKey),
        Some(a) => match record {
            None => Err(ExecutionError::InvalidFeeRecord),
            Some((owner, gates)) => if owner != a {
                Err(ExecutionError::FeeRecordNotOwned)
            } else if gates < fee {
                Err(ExecutionError::InsufficientFunds)
            } else {
                Ok(fee)
            },
        },
    }
}

/// Whether the record `fee_record` can pay `fee` for the account of `private_key`.
pub open spec fn fee_spec(private_key: Seq<char>, fee_record: Seq<char>, fee: u64) -> Result<u64, ExecutionError> {
    fee_decision_spec(address_of(private_key), record_owner_and_gates(fee_record), fee)
}

/// Decides whether a fee record can pay `fee` for the caller; returns the fee.
pub fn fee_decision(address: Option<String>, record: Option<(String, u64)>, fee: u64) -> (r: Result<u64, ExecutionError>)
    ensures
        r == fee_decision_spec(
            match address {
                Some(a) => Some(a@),
                None => None,
            },
            match record {
                Some(p) => Some((p.0@, p.1)),
                None => None,
            },
            fee,
        ),
{
    let address = match address {
        Some(a) => a,
        None => return Err(ExecutionError::InvalidPrivateKey),
    };
    match record {
        None => Err(ExecutionError::InvalidFeeRecord),
        Some((owner, gates)) => {
            if !(owner == address) {
                Err(ExecutionError::FeeRecordNotOwned)
            } else if gates < fee {
                Err(ExecutionError::InsufficientFunds)
            } else {
                Ok(fee)
            }
        },
    }
}

/// Checks that the fee record belongs to the caller and holds at least `fee`
/// microcredits; returns the fee.
pub fn check_fee_record(private_key: &String, fee_record: &String, fee: u64) -> (r: Result<u64, ExecutionError>)
    ensures
        r == fee_spec(private_key@, fee_record@, fee),
{
    let address = derive_address(private_key);
    let record = read_record(fee_record);
    fee_decision(address, record, fee)
}

/// With caching on, keys stored after a first call are found by the next
/// call to the same function, which then synthesizes nothing; with caching
/// off the cache is left as it was, and a fresh context holds no keys.
pub proof fn lemma_cached_keys_reused<PK, VK>(m: Map<CacheKey, (PK, VK)>, key: CacheKey, pk: PK, vk: VK)
    ensures
        store_spec(m, true, key, Some(pk), Some(vk)) is Ok,
        select_spec(store_spec(m, true, key, Some(pk), Some(vk))->Ok_0, key, None::<PK>, None::<VK>)
            == Ok::<KeyChoice<PK, VK>, ExecutionError>(KeyChoice::Cached),
        !m.contains_key(key) ==> cached_pair(store_spec(m, true, key, Some(pk), Some(vk))->Ok_0, key) == Some((pk, vk)),
        store_spec(m, false, key, Some(pk), Some(vk)) == Ok::<_, ExecutionError>(m),
        select_spec(Map::<CacheKey, (PK, VK)>::empty(), key, None::<PK>, None::<VK>)
            == Ok::<KeyChoice<PK, VK>, ExecutionError>(KeyChoice::Synthesize),
{
}

/// Supplying only one half of a key pair fails, whatever the cache holds.
pub proof fn lemma_half_pair_refused<PK, VK>(m: Map<CacheKey, (PK, VK)>, key: CacheKey, pk: Option<PK>, vk: Option<VK>)
    requires
        pk is Some != vk is Some,
    ensures
        select_spec(m, key, pk, vk) == Err::<KeyChoice<PK, VK>, _>(ExecutionError::IncompleteKeyPair),
{
}

/// A fee record of the caller pays the fee exactly when its balance reaches it.
pub proof fn lemma_fee_needs_balance(private_key: Seq<char>, fee_record: Seq<char>, fee: u64, gates: u64)
    requires
        address_of(private_key) is Some,
        record_owner_and_gates(fee_record) == Some((address_of(private_key)->Some_0, gates)),
    ensures
        gates < fee ==> fee_spec(private_key, fee_record, fee) == Err::<u64, _>(ExecutionError::InsufficientFunds),
        gates >= fee ==> fee_spec(private_key, fee_record, fee) == Ok::<u64, ExecutionError>(fee),
{
}

} // verus!
