use beacon_chain::builder::BeaconChainBuilder;
use beacon_chain::chain::BeaconChain;
use beacon_chain::components::{
    JsonRpcEth1Backend, NullEventHandler, TestingSlotClock, ThreadSafeReducedTree, Witness,
};
use beacon_chain::hash256::Hash256;
use beacon_chain::genesis::{
    after_write, genesis_writes, perform_in_order, write_genesis, GenesisItem, WriteStep,
};
use beacon_chain::store::{Recorder, Store};
use beacon_chain::types::{
    BeaconBlock, BeaconState, CheckPoint, EthSpec, PersistedBeaconChain, Slot,
};
use std::cell::{Cell, RefCell};
use std::collections::HashMap;
use std::sync::Arc;
use std::time::Duration;

const DB_KEY: &str = "0123456789abcdef0123456789abcdef";

#[derive(Clone, Debug, PartialEq)]
struct ChainSpec {
    name: &'static str,
    caches_fail: bool,
}

fn spec_named(name: &'static str) -> ChainSpec {
    ChainSpec { name, caches_fail: false }
}

#[derive(Clone, Debug, PartialEq)]
struct StateBody {
    validators: Vec<u64>,
    caches: Vec<&'static str>,
}

#[derive(Debug)]
enum CacheError {
    NoCommittee(u64),
}

#[derive(Debug, PartialEq)]
enum Pool {
    Empty,
    Restored { operations: Vec<u8>, state_slot: Slot, spec: &'static str },
}

struct MinimalEthSpec;

fn mix(seed: u8, words: &[u64]) -> Hash256 {
    let mut bytes = [seed; 32];
    let mut acc: u64 = 1469598103934665603;
    for (i, word) in words.iter().enumerate() {
        acc = (acc ^ word.wrapping_add(i as u64 + 1)).wrapping_mul(1099511628211);
        bytes[(i * 8) % 32..(i * 8) % 32 + 8].copy_from_slice(&acc.to_be_bytes());
    }
    Hash256(bytes)
}

fn hash_words(hash: &Hash256) -> Vec<u64> {
    hash.0.iter().map(|b| *b as u64).collect()
}

impl EthSpec for MinimalEthSpec {
    type ChainSpec = ChainSpec;
    type StateBody = StateBody;
    type BlockBody = String;
    type StateError = CacheError;
    type OperationPool = Pool;
    type PersistedOperationPool = Vec<u8>;

    fn default_spec() -> ChainSpec {
        spec_named("minimal")
    }

    fn empty_block(spec: &ChainSpec) -> BeaconBlock<Self> {
        BeaconBlock {
            slot: Slot::new(0),
            state_root: Hash256([0xee; 32]),
            body: format!("empty block of {}", spec.name),
        }
    }

    fn block_root(block: &BeaconBlock<Self>) -> Hash256 {
        let mut words = hash_words(&block.state_root);
        words.push(block.slot.0);
        words.extend(block.body.bytes().map(|b| b as u64));
        mix(1, &words)
    }

    fn state_root(state: &BeaconState<Self>) -> Hash256 {
        let mut words = vec![state.genesis_time, state.slot.0];
        words.extend(state.body.validators.iter());
        mix(2, &words)
    }

    fn build_all_caches(
        state: BeaconState<Self>,
        spec: &ChainSpec,
    ) -> Result<BeaconState<Self>, CacheError> {
        if spec.caches_fail {
            return Err(CacheError::NoCommittee(state.genesis_time));
        }
        let mut state = state;
        state.body.caches.push(spec.name);
        Ok(state)
    }

    fn empty_operation_pool() -> Pool {
        Pool::Empty
    }

    fn restore_operation_pool(
        pool: Vec<u8>,
        state: &BeaconState<Self>,
        spec: &ChainSpec,
    ) -> Pool {
        Pool::Restored { operations: pool, state_slot: state.slot, spec: spec.name }
    }
}

type State = BeaconState<MinimalEthSpec>;
type Block = BeaconBlock<MinimalEthSpec>;
type Check = CheckPoint<MinimalEthSpec>;
type Persisted = PersistedBeaconChain<MinimalEthSpec>;

fn copy_state(state: &State) -> State {
    BeaconState { genesis_time: state.genesis_time, slot: state.slot, body: state.body.clone() }
}

fn copy_block(block: &Block) -> Block {
    BeaconBlock { slot: block.slot, state_root: block.state_root, body: block.body.clone() }
}

fn copy_check(check: &Check) -> Check {
    CheckPoint {
        beacon_block_root: check.beacon_block_root,
        beacon_block: copy_block(&check.beacon_block),
        beacon_state_root: check.beacon_state_root,
        beacon_state: copy_state(&check.beacon_state),
    }
}

fn same_block(a: &Block, b: &Block) -> bool {
    a.slot == b.slot && a.state_root == b.state_root && a.body == b.body
}

fn same_state(a: &State, b: &State) -> bool {
    a.genesis_time == b.genesis_time && a.slot == b.slot && a.body == b.body
}

#[derive(Debug)]
enum DbError {
    Refused(u8),
}

struct MemoryStore {
    states: RefCell<HashMap<Hash256, State>>,
    blocks: RefCell<HashMap<Hash256, Block>>,
    chains: RefCell<HashMap<Hash256, Persisted>>,
    puts: RefCell<Vec<Hash256>>,
    /// How many writes succeed.
    room: Cell<usize>,
    broken: Cell<bool>,
}

impl MemoryStore {
    fn open() -> Self {
        MemoryStore {
            states: RefCell::new(HashMap::new()),
            blocks: RefCell::new(HashMap::new()),
            chains: RefCell::new(HashMap::new()),
            puts: RefCell::new(Vec::new()),
            room: Cell::new(usize::MAX),
            broken: Cell::new(false),
        }
    }

    fn take_room(&self, key: &Hash256) -> Result<(), DbError> {
        self.puts.borrow_mut().push(*key);
        if self.room.get() == 0 {
            return Err(DbError::Refused(7));
        }
        self.room.set(self.room.get() - 1);
        Ok(())
    }
}

impl Store<State> for MemoryStore {
    type Error = DbError;

    fn get(&self, key: &Hash256) -> Result<Option<State>, DbError> {
        Ok(self.states.borrow().get(key).map(copy_state))
    }

    fn put(&self, key: &Hash256, item: &State) -> Result<(), DbError> {
        self.take_room(key)?;
        self.states.borrow_mut().insert(*key, copy_state(item));
        Ok(())
    }
}

impl Store<Block> for MemoryStore {
    type Error = DbError;

    fn get(&self, key: &Hash256) -> Result<Option<Block>, DbError> {
        Ok(self.blocks.borrow().get(key).map(copy_block))
    }

    fn put(&self, key: &Hash256, item: &Block) -> Result<(), DbError> {
        self.take_room(key)?;
        self.blocks.borrow_mut().insert(*key, copy_block(item));
        Ok(())
    }
}

impl Store<Persisted> for MemoryStore {
    type Error = DbError;

    fn get(&self, key: &Hash256) -> Result<Option<Persisted>, DbError> {
        if self.broken.get() {
            return Err(DbError::Refused(9));
        }
        Ok(self.chains.borrow().get(key).map(|p| PersistedBeaconChain {
            canonical_head: copy_check(&p.canonical_head),
            op_pool: p.op_pool.clone(),
            genesis_block_root: p.genesis_block_root,
        }))
    }

    fn put(&self, key: &Hash256, item: &Persisted) -> Result<(), DbError> {
        let copy = PersistedBeaconChain {
            canonical_head: copy_check(&item.canonical_head),
            op_pool: item.op_pool.clone(),
            genesis_block_root: item.genesis_block_root,
        };
        self.chains.borrow_mut().insert(*key, copy);
        Ok(())
    }
}

#[derive(Debug, PartialEq)]
struct ManualClock {
    genesis_slot: Slot,
    genesis_duration: Duration,
    slot_duration: Duration,
}

impl TestingSlotClock for ManualClock {
    fn new(genesis_slot: Slot, genesis_duration: Duration, slot_duration: Duration) -> Self {
        ManualClock { genesis_slot, genesis_duration, slot_duration }
    }
}

struct Tree {
    store: Arc<MemoryStore>,
    block: Block,
    root: Hash256,
}

impl ThreadSafeReducedTree<MemoryStore, MinimalEthSpec> for Tree {
    fn new(store: Arc<MemoryStore>, finalized_block: &Block, finalized_root: Hash256) -> Self {
        Tree { store, block: copy_block(finalized_block), root: finalized_root }
    }
}

#[derive(Debug, PartialEq)]
struct Eth1Config {
    endpoint: &'static str,
}

impl Default for Eth1Config {
    fn default() -> Self {
        Eth1Config { endpoint: "http://localhost:8545" }
    }
}

struct Eth1<L> {
    config: Eth1Config,
    log: L,
}

impl<L> JsonRpcEth1Backend<L> for Eth1<L> {
    type Config = Eth1Config;

    fn new(config: Eth1Config, log: L) -> Self {
        Eth1 { config, log }
    }
}

#[derive(Clone, Debug, PartialEq)]
struct Log(&'static str);

type Types<L> = Witness<
    MemoryStore,
    ManualClock,
    Tree,
    Eth1<L>,
    MinimalEthSpec,
    NullEventHandler<MinimalEthSpec>,
>;
type Builder = BeaconChainBuilder<Types<Log>, Log>;
type Chain = BeaconChain<Types<Log>, Log>;

fn blank() -> Builder {
    BeaconChainBuilder::new(MinimalEthSpec)
}

fn interop_genesis_state(validator_count: usize, genesis_time: u64) -> State {
    BeaconState {
        genesis_time,
        slot: Slot::new(0),
        body: StateBody { validators: vec![32_000_000_000; validator_count], caches: vec![] },
    }
}

fn started(store: &Arc<MemoryStore>) -> Builder {
    let result = blank()
        .logger(Log("main"))
        .store(store.clone())
        .genesis_state(interop_genesis_state(3, 42));
    match result {
        Ok(builder) => builder,
        Err(text) => panic!("{}", text),
    }
}

/// A builder that lacks nothing.
fn complete(store: &Arc<MemoryStore>) -> Builder {
    match started(store)
        .null_event_handler()
        .testing_slot_clock(Duration::from_secs(6))
        .expect("should have a state")
        .empty_reduced_tree_fork_choice()
    {
        Ok(builder) => builder,
        Err(text) => panic!("{}", text),
    }
}

fn error_of<T>(result: Result<T, String>) -> String {
    match result {
        Ok(_) => panic!("should fail"),
        Err(text) => text,
    }
}

fn persisted(consistent: bool) -> Persisted {
    let beacon_state = BeaconState {
        genesis_time: 1000,
        slot: Slot::new(5),
        body: StateBody { validators: vec![1, 2], caches: vec![] },
    };
    let beacon_state_root = beacon_state.canonical_root();
    let beacon_block = BeaconBlock {
        slot: Slot::new(5),
        state_root: if consistent { beacon_state_root } else { Hash256([0x55; 32]) },
        body: "block five".to_string(),
    };
    PersistedBeaconChain {
        canonical_head: CheckPoint {
            beacon_block_root: beacon_block.canonical_root(),
            beacon_block,
            beacon_state_root,
            beacon_state,
        },
        op_pool: vec![3, 1, 4],
        genesis_block_root: Hash256([0x99; 32]),
    }
}

fn keep(store: &MemoryStore, chain: &Persisted) {
    store.put(&Hash256::from_slice(DB_KEY.as_bytes()), chain).expect("should keep the chain");
}

#[test]
fn recent_genesis() {
    let validator_count = 8;
    let genesis_time = 13371337;

    let log = slog::Logger::root(slog::Discard, slog::OwnedKV(()));
    let store = Arc::new(MemoryStore::open());

    let genesis_state = interop_genesis_state(validator_count, genesis_time);

    let chain: BeaconChain<Types<slog::Logger>, slog::Logger> =
        BeaconChainBuilder::new(MinimalEthSpec)
            .logger(log.clone())
            .store(store.clone())
            .genesis_state(genesis_state)
            .expect("should build state using recent genesis")
            .dummy_eth1_backend()
            .expect("should build the dummy eth1 backend")
            .null_event_handler()
            .testing_slot_clock(Duration::from_secs(1))
            .expect("should configure testing slot clock")
            .empty_reduced_tree_fork_choice()
            .expect("should add fork choice to builder")
            .build()
            .expect("should build");

    let head = chain.canonical_head.read();
    let state = &head.beacon_state;
    let block = &head.beacon_block;

    assert_eq!(state.slot, Slot::new(0), "should start from genesis");
    assert_eq!(state.genesis_time, 13371337, "should have the correct genesis time");
    assert_eq!(
        block.state_root,
        state.canonical_root(),
        "block should have correct state root"
    );
    let stored: Block = chain
        .store
        .get(&Hash256::zero())
        .expect("should read db")
        .expect("should find genesis block");
    assert!(
        same_block(&stored, block),
        "should store genesis block under zero hash alias"
    );
    assert_eq!(
        state.body.validators.len(),
        validator_count,
        "should have correct validator count"
    );
    assert_eq!(
        chain.genesis_block_root,
        block.canonical_root(),
        "should have correct genesis block root"
    );
}

#[test]
fn genesis_without_store() {
    let result = blank().logger(Log("main")).genesis_state(interop_genesis_state(1, 1));
    assert_eq!(error_of(result), "genesis_state requires a store");
}

#[test]
fn genesis_with_failing_caches() {
    let store = Arc::new(MemoryStore::open());
    let spec = ChainSpec { name: "bad", caches_fail: true };
    let result =
        blank().custom_spec(spec).store(store.clone()).genesis_state(interop_genesis_state(1, 77));
    assert_eq!(error_of(result), "Failed to build genesis state caches: NoCommittee(77)");
    assert!(store.puts.borrow().is_empty());
}

#[test]
fn genesis_writes_fail_one_by_one() {
    let texts = [
        "Failed to store genesis state: Refused(7)",
        "Failed to store genesis block: Refused(7)",
        "Failed to store genesis block under 0x00..00 alias: Refused(7)",
    ];
    for (room, text) in texts.iter().enumerate() {
        let store = Arc::new(MemoryStore::open());
        store.room.set(room);
        let result = blank().store(store.clone()).genesis_state(interop_genesis_state(2, 5));
        assert_eq!(error_of(result), *text);
        assert_eq!(store.puts.borrow().len(), room + 1, "should stop at the first failure");
    }
}

#[test]
fn genesis_is_stored_and_remembered() {
    let store = Arc::new(MemoryStore::open());
    let builder = blank()
        .custom_spec(spec_named("custom"))
        .store(store.clone())
        .genesis_state(interop_genesis_state(4, 9))
        .expect("should start");
    let genesis = builder.finalized_checkpoint.as_ref().expect("should have a checkpoint");

    assert_eq!(genesis.beacon_block.body, "empty block of custom");
    assert_eq!(genesis.beacon_state.body.caches, vec!["custom"]);
    assert_eq!(genesis.beacon_state_root, genesis.beacon_state.canonical_root());
    assert_eq!(genesis.beacon_block.state_root, genesis.beacon_state_root);
    assert_eq!(genesis.beacon_block_root, genesis.beacon_block.canonical_root());
    assert_eq!(
        *store.puts.borrow(),
        vec![genesis.beacon_state_root, genesis.beacon_block_root, Hash256::zero()]
    );

    let state: State = store.get(&genesis.beacon_state_root).unwrap().unwrap();
    assert!(same_state(&state, &genesis.beacon_state));
    for key in [genesis.beacon_block_root, Hash256::zero()] {
        let block: Block = store.get(&key).unwrap().unwrap();
        assert!(same_block(&block, &genesis.beacon_block));
    }
    let other: Option<Block> = store.get(&genesis.beacon_state_root).unwrap();
    assert!(other.is_none());
}

#[test]
fn genesis_plan_is_in_order() {
    let head = persisted(true).canonical_head;
    let writes = genesis_writes(&head);
    assert_eq!(writes.len(), 3);
    assert_eq!(writes[0].key, head.beacon_state_root);
    assert!(matches!(&writes[0].item, GenesisItem::State(state) if same_state(state, &head.beacon_state)));
    assert_eq!(writes[1].key, head.beacon_block_root);
    assert!(matches!(&writes[1].item, GenesisItem::Block(block) if same_block(block, &head.beacon_block)));
    assert_eq!(writes[2].key, Hash256::zero());
    assert!(matches!(&writes[2].item, GenesisItem::Block(block) if same_block(block, &head.beacon_block)));
}

#[test]
fn a_failed_write_is_the_last() {
    let good = || -> Result<(), DbError> { Ok(()) };
    assert!(matches!(after_write(0, 3, "Failed: ", good()), WriteStep::Next(1)));
    assert!(matches!(after_write(1, 3, "Failed: ", good()), WriteStep::Next(2)));
    assert!(matches!(after_write(2, 3, "Failed: ", good()), WriteStep::Done));
    for index in 0..3 {
        let bad: Result<(), DbError> = Err(DbError::Refused(5));
        match after_write(index, 3, "Failed: ", bad) {
            WriteStep::Stop(text) => assert_eq!(text, "Failed: Refused(5)"),
            _ => panic!("should stop"),
        }
    }
}

#[test]
fn state_and_block_under_one_key() {
    let store = MemoryStore::open();
    let mut genesis = persisted(true).canonical_head;
    genesis.beacon_state_root = Hash256::zero();
    let mut recorder = Recorder::new(&store);
    assert_eq!(perform_in_order(&mut recorder, &genesis_writes(&genesis)), Ok(()));
    let state: State = store.get(&Hash256::zero()).unwrap().unwrap();
    assert!(same_state(&state, &genesis.beacon_state));
    let block: Block = store.get(&Hash256::zero()).unwrap().unwrap();
    assert!(same_block(&block, &genesis.beacon_block));
}

#[test]
fn written_genesis_is_returned() {
    for room in 0..4 {
        let store = MemoryStore::open();
        store.room.set(room);
        let mut recorder = Recorder::new(&store);
        let state = interop_genesis_state(2, 8);
        let result = write_genesis(&mut recorder, state, &spec_named("some"));
        assert_eq!(store.puts.borrow().len(), if room < 3 { room + 1 } else { 3 });
        assert_eq!(store.states.borrow().len(), if room > 0 { 1 } else { 0 });
        assert_eq!(store.blocks.borrow().len(), if room > 1 { room - 1 } else { 0 });
        match result {
            Ok(genesis) => {
                assert_eq!(room, 3);
                assert_eq!(
                    *store.puts.borrow(),
                    vec![genesis.beacon_state_root, genesis.beacon_block_root, Hash256::zero()]
                );
            }
            Err(text) => assert!(room < 3 && text.ends_with(": Refused(7)")),
        }
    }
}

#[test]
fn resuming_replaces_what_was_started() {
    let store = Arc::new(MemoryStore::open());
    keep(&store, &persisted(true));
    let pool_and_root = |builder: Builder| -> (Pool, Hash256, Hash256) {
        let chain: Chain = builder
            .resume_from_db(DB_KEY)
            .expect("should resume")
            .null_event_handler()
            .testing_slot_clock(Duration::from_secs(3))
            .expect("should have a state")
            .empty_reduced_tree_fork_choice()
            .expect("should have a store")
            .build()
            .expect("should build");
        let head = chain.canonical_head.read().beacon_block_root;
        (chain.op_pool, chain.genesis_block_root, head)
    };
    let alone = pool_and_root(blank().logger(Log("main")).store(store.clone()));
    assert_eq!(pool_and_root(started(&store)), alone);
}

#[test]
fn checkpoint_can_be_read() {
    assert!(blank().finalized_checkpoint().is_none());
    let head = persisted(true).canonical_head;
    let root = head.beacon_block_root;
    let builder = blank().start_at(head);
    assert_eq!(builder.finalized_checkpoint().as_ref().unwrap().beacon_block_root, root);
}

#[test]
fn hashes_in_hexadecimal() {
    assert_eq!(Hash256::zero().to_hex(), format!("0x{}", "0".repeat(64)));
    let bytes: Vec<u8> = (0..32).map(|i| i * 8 + 5).collect();
    assert_eq!(
        Hash256::from_slice(&bytes).to_hex(),
        "0x050d151d252d353d454d555d656d757d858d959da5adb5bdc5cdd5dde5edf5fd"
    );
    assert_eq!(Hash256([0x9a; 32]).to_hex(), format!("0x{}", "9a".repeat(32)));
}

#[test]
fn genesis_depends_on_state_and_spec_alone() {
    let first = Arc::new(MemoryStore::open());
    let second = Arc::new(MemoryStore::open());
    let once = blank()
        .store(first.clone())
        .genesis_state(interop_genesis_state(3, 42))
        .expect("should start");
    let other = blank()
        .logger(Log("other"))
        .resume_at(persisted(true).canonical_head, Hash256::zero(), Pool::Empty)
        .store(second.clone())
        .genesis_state(interop_genesis_state(3, 42))
        .expect("should start");
    let expected = copy_check(once.finalized_checkpoint.as_ref().unwrap());
    let again = once.genesis_state(interop_genesis_state(3, 42)).expect("should start again");
    for builder in [&other, &again] {
        let genesis = builder.finalized_checkpoint.as_ref().unwrap();
        assert_eq!(genesis.beacon_block_root, expected.beacon_block_root);
        assert!(same_block(&genesis.beacon_block, &expected.beacon_block));
        assert_eq!(genesis.beacon_state_root, expected.beacon_state_root);
        assert!(same_state(&genesis.beacon_state, &expected.beacon_state));
    }
    let puts = second.puts.borrow();
    assert_eq!(first.puts.borrow()[..3], puts[..]);
    assert_eq!(first.puts.borrow()[3..], puts[..]);
}

#[test]
fn genesis_blocks_differ_in_the_state_root_alone() {
    let block_of = |validators: usize| -> Block {
        let builder = blank()
            .store(Arc::new(MemoryStore::open()))
            .genesis_state(interop_genesis_state(validators, 1))
            .expect("should start");
        builder.finalized_checkpoint.expect("should have a checkpoint").beacon_block
    };
    let (one, two) = (block_of(1), block_of(2));
    assert!(same_block(&one, &block_of(1)));
    assert_ne!(one.state_root, two.state_root);
    assert_eq!(one.slot, two.slot);
    assert_eq!(one.body, two.body);
}

#[test]
fn testing_clock_ignores_the_slot_of_the_head() {
    let clock_at = |slot: u64| -> ManualClock {
        let store = Arc::new(MemoryStore::open());
        let mut chain = persisted(true);
        chain.canonical_head.beacon_state.slot = Slot::new(slot);
        keep(&store, &chain);
        blank()
            .logger(Log("main"))
            .store(store)
            .resume_from_db(DB_KEY)
            .expect("should resume")
            .null_event_handler()
            .testing_slot_clock(Duration::from_secs(3))
            .expect("should have a state")
            .empty_reduced_tree_fork_choice()
            .expect("should have a store")
            .build()
            .expect("should build")
            .slot_clock
    };
    assert_eq!(clock_at(0), clock_at(77));
    assert_eq!(clock_at(77).genesis_slot, Slot::new(0));
}

#[test]
fn logger_can_be_read() {
    assert!(blank().log().is_none());
    assert_eq!(blank().logger(Log("main")).log(), Some(&Log("main")));
}

#[test]
fn resume_looks_at_the_key_last() {
    assert_eq!(error_of(blank().resume_from_db("short")), "resume_from_db requires a log");
    let result = blank().logger(Log("main")).resume_from_db("short");
    assert_eq!(error_of(result), "load_from_store requires a store.");
}

#[test]
fn resume_needs_log_then_store() {
    assert_eq!(error_of(blank().resume_from_db(DB_KEY)), "resume_from_db requires a log");
    let result = blank().logger(Log("main")).resume_from_db(DB_KEY);
    assert_eq!(error_of(result), "load_from_store requires a store.");
}

#[test]
fn resume_from_broken_or_empty_store() {
    let store = Arc::new(MemoryStore::open());
    let result = blank().logger(Log("main")).store(store.clone()).resume_from_db(DB_KEY);
    assert_eq!(error_of(result), "No persisted beacon chain found in store");

    store.broken.set(true);
    let result = blank().logger(Log("main")).store(store).resume_from_db(DB_KEY);
    assert_eq!(error_of(result), "DB error when reading persisted beacon chain: Refused(9)");
}

#[test]
fn resumed_chain_is_built() {
    let store = Arc::new(MemoryStore::open());
    keep(&store, &persisted(true));
    let chain: Chain = blank()
        .logger(Log("main"))
        .store(store.clone())
        .resume_from_db(DB_KEY)
        .expect("should resume")
        .no_eth1_backend()
        .null_event_handler()
        .testing_slot_clock(Duration::from_secs(12))
        .expect("should have a state")
        .empty_reduced_tree_fork_choice()
        .expect("should have a store")
        .build()
        .expect("should build");

    let expected = persisted(true).canonical_head;
    let head = chain.canonical_head.read();
    assert_eq!(head.beacon_block_root, expected.beacon_block_root);
    assert!(same_block(&head.beacon_block, &expected.beacon_block));
    assert_eq!(head.beacon_state_root, expected.beacon_state_root);
    assert_eq!(head.beacon_state.body.caches, vec!["minimal"]);
    assert_eq!(
        chain.op_pool,
        Pool::Restored { operations: vec![3, 1, 4], state_slot: Slot::new(5), spec: "minimal" }
    );
    assert_eq!(chain.genesis_block_root, Hash256([0x99; 32]));
    assert_eq!(chain.fork_choice.genesis_block_root, Hash256([0x99; 32]));
    assert_eq!(chain.fork_choice.backend.root, expected.beacon_block_root);
    assert!(chain.eth1_chain.is_none());
    assert_eq!(chain.slot_clock.genesis_duration, Duration::from_secs(1000));
}

#[test]
fn resumed_head_must_be_consistent() {
    let store = Arc::new(MemoryStore::open());
    keep(&store, &persisted(false));
    let result = blank()
        .logger(Log("main"))
        .store(store)
        .resume_from_db(DB_KEY)
        .expect("should resume")
        .build();
    assert_eq!(error_of(result), "beacon_block.state_root != beacon_state");
}

#[test]
fn read_outcomes() {
    let failed: Result<Option<Persisted>, DbError> = Err(DbError::Refused(1));
    assert_eq!(
        error_of(PersistedBeaconChain::from_read(failed)),
        "DB error when reading persisted beacon chain: Refused(1)"
    );
    let nothing: Result<Option<Persisted>, DbError> = Ok(None);
    assert_eq!(
        error_of(PersistedBeaconChain::from_read(nothing)),
        "No persisted beacon chain found in store"
    );
    let found: Result<Option<Persisted>, DbError> = Ok(Some(persisted(true)));
    match PersistedBeaconChain::from_read(found) {
        Ok(chain) => assert_eq!(chain.op_pool, vec![3, 1, 4]),
        Err(text) => panic!("{}", text),
    }
}

#[test]
fn build_reports_what_is_missing() {
    let store = Arc::new(MemoryStore::open());
    let head = || persisted(true).canonical_head;
    let pool = || Pool::Empty;
    let clock = || ManualClock::new(Slot::new(0), Duration::from_secs(1), Duration::from_secs(1));

    assert_eq!(error_of(blank().build()), "Cannot build without a state");
    let builder = blank().start_at(head());
    assert_eq!(error_of(builder.build()), "Cannot build without a logger");
    let builder = blank().start_at(head()).logger(Log("main"));
    assert_eq!(error_of(builder.build()), "Cannot build without store");
    let builder = blank().start_at(head()).logger(Log("main")).store(store.clone());
    assert_eq!(error_of(builder.build()), "Cannot build without slot clock");
    let builder =
        blank().start_at(head()).logger(Log("main")).store(store.clone()).slot_clock(clock());
    assert_eq!(error_of(builder.build()), "Cannot build without op pool");
    let builder = blank().resume_at(head(), Hash256::zero(), pool()).logger(Log("main"));
    let builder = builder.store(store.clone()).slot_clock(clock());
    assert_eq!(error_of(builder.build()), "Cannot build without a fork choice");
    let builder = match started(&store).slot_clock(clock()).empty_reduced_tree_fork_choice() {
        Ok(builder) => builder,
        Err(text) => panic!("{}", text),
    };
    assert_eq!(error_of(builder.build()), "Cannot build without an event handler");
}

#[test]
fn build_with_failing_caches() {
    let store = Arc::new(MemoryStore::open());
    let builder = complete(&store).custom_spec(ChainSpec { name: "bad", caches_fail: true });
    assert_eq!(error_of(builder.build()), "Failed to build state caches: NoCommittee(42)");
}

#[test]
fn missing_logger_is_reported_before_mismatch() {
    let builder = blank().start_at(persisted(false).canonical_head);
    assert_eq!(error_of(builder.build()), "Cannot build without a logger");
}

#[test]
fn assemble_takes_the_given_head() {
    let store = Arc::new(MemoryStore::open());
    let head = persisted(true).canonical_head;
    let root = head.beacon_block_root;
    match complete(&store).assemble(head) {
        Ok(chain) => assert_eq!(chain.canonical_head.read().beacon_block_root, root),
        Err(text) => panic!("{}", text),
    }
    let result = complete(&store).assemble(persisted(false).canonical_head);
    assert_eq!(error_of(result), "beacon_block.state_root != beacon_state");
}

#[test]
fn chain_has_the_parts_it_was_given() {
    let store = Arc::new(MemoryStore::open());
    let chain: Chain = match complete(&store)
        .json_rpc_eth1_backend(Eth1 { config: Eth1Config { endpoint: "here" }, log: Log("eth1") })
        .build()
    {
        Ok(chain) => chain,
        Err(text) => panic!("{}", text),
    };
    let head = chain.canonical_head.read();
    assert_eq!(chain.spec, spec_named("minimal"));
    assert!(Arc::ptr_eq(&chain.store, &store));
    assert!(Arc::ptr_eq(&chain.fork_choice.store, &store));
    assert!(Arc::ptr_eq(&chain.fork_choice.backend.store, &store));
    assert!(same_block(&chain.fork_choice.backend.block, &head.beacon_block));
    assert_eq!(chain.fork_choice.backend.root, head.beacon_block_root);
    assert_eq!(chain.fork_choice.genesis_block_root, chain.genesis_block_root);
    assert_eq!(chain.op_pool, Pool::Empty);
    assert_eq!(chain.log, Log("main"));
    assert_eq!(
        chain.slot_clock,
        ManualClock {
            genesis_slot: Slot::new(0),
            genesis_duration: Duration::from_secs(42),
            slot_duration: Duration::from_secs(6),
        }
    );
    let eth1 = chain.eth1_chain.as_ref().expect("should have an eth1 chain");
    assert_eq!(eth1.backend.config.endpoint, "here");
    assert!(!eth1.use_dummy_backend);
    assert_eq!(head.beacon_state.body.caches, vec!["minimal", "minimal"]);
}

#[test]
fn eth1_backends() {
    assert_eq!(error_of(blank().dummy_eth1_backend()), "dummy_eth1_backend requires a log");

    let store = Arc::new(MemoryStore::open());
    let chain: Chain = complete(&store)
        .logger(Log("later"))
        .dummy_eth1_backend()
        .expect("should have a log")
        .build()
        .expect("should build");
    let eth1 = chain.eth1_chain.as_ref().expect("should have an eth1 chain");
    assert!(eth1.use_dummy_backend);
    assert_eq!(eth1.backend.config, Eth1Config::default());
    assert_eq!(eth1.backend.log, Log("later"));

    let chain: Chain = complete(&store)
        .dummy_eth1_backend()
        .expect("should have a log")
        .no_eth1_backend()
        .build()
        .expect("should build without an eth1 back-end");
    assert!(chain.eth1_chain.is_none());

    let backend = Eth1 { config: Eth1Config { endpoint: "there" }, log: Log("eth1") };
    let chain: Chain =
        complete(&store).eth1_backend(Some(backend)).build().expect("should build");
    assert_eq!(chain.eth1_chain.expect("should have an eth1 chain").backend.log, Log("eth1"));
}

#[test]
fn testing_clock_needs_state() {
    let result = blank().testing_slot_clock(Duration::from_secs(1));
    assert_eq!(error_of(result), "testing_slot_clock requires an initialized state");
}

#[test]
fn fork_choice_needs_store_then_root() {
    let store = Arc::new(MemoryStore::open());
    let tree = || Tree {
        store: Arc::new(MemoryStore::open()),
        block: persisted(true).canonical_head.beacon_block,
        root: Hash256::zero(),
    };
    assert_eq!(
        error_of(blank().fork_choice_backend(tree())),
        "reduced_tree_fork_choice requires a store"
    );
    assert_eq!(
        error_of(blank().store(store.clone()).fork_choice_backend(tree())),
        "fork_choice_backend requires a genesis_block_root"
    );
    assert_eq!(
        error_of(blank().empty_reduced_tree_fork_choice()),
        "reduced_tree_fork_choice requires a store"
    );
    assert!(started(&store).fork_choice_backend(tree()).is_ok());
}

#[test]
fn settings_in_any_order_and_last_one_counts() {
    let first = Arc::new(MemoryStore::open());
    let second = Arc::new(MemoryStore::open());
    let chain: Chain = blank()
        .null_event_handler()
        .store(first.clone())
        .no_eth1_backend()
        .logger(Log("first"))
        .store(second.clone())
        .genesis_state(interop_genesis_state(1, 11))
        .expect("should start")
        .testing_slot_clock(Duration::from_secs(2))
        .expect("should have a state")
        .logger(Log("second"))
        .event_handler(NullEventHandler::default())
        .empty_reduced_tree_fork_choice()
        .expect("should have a store")
        .build()
        .expect("should build");
    assert_eq!(chain.log, Log("second"));
    assert!(Arc::ptr_eq(&chain.store, &second));
    assert!(first.puts.borrow().is_empty());
    assert_eq!(second.puts.borrow().len(), 3);
}

#[test]
fn hashes() {
    assert_eq!(Hash256::zero().0, [0u8; 32]);
    let bytes: Vec<u8> = (0..32).collect();
    let hash = Hash256::from_slice(&bytes);
    assert_eq!(hash.0.to_vec(), bytes);
    assert_eq!(hash, Hash256::from_slice(&bytes));
    for i in 0..32 {
        let mut other = hash;
        other.0[i] ^= 0x80;
        assert_ne!(hash, other);
    }
}
