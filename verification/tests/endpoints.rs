use sniper_core::models::chain::{
    create_chain, get_chain, get_chain_id, ChainAction, ChainIdAction, ChainIdTooWide, Chains,
    ConnectionPolicy, EndpointPool, WorkerChain,
};
use sniper_core::types::U256;

fn pool(urls: &[&str]) -> EndpointPool {
    EndpointPool::new(urls.iter().map(|url| url.to_string()).collect()).unwrap()
}

#[test]
fn three_endpoints_come_round_again() {
    let mut endpoints = pool(&["A", "B", "C"]);
    let mut seen = Vec::new();
    for _ in 0..4 {
        let index = endpoints.next_endpoint();
        seen.push(endpoints.endpoint(index).clone());
    }
    assert_eq!(seen, vec!["A", "B", "C", "A"]);
}

#[test]
fn selections_follow_the_call_count_modulo_the_pool_size() {
    for n in 1..6usize {
        let urls: Vec<String> = (0..n).map(|i| format!("ws://node{}", i)).collect();
        let mut endpoints = EndpointPool::new(urls).unwrap();
        assert_eq!(endpoints.len(), n);
        for k in 0..23usize {
            assert_eq!(endpoints.next_endpoint(), k % n);
        }
    }
}

#[test]
fn empty_pool_cannot_be_made() {
    assert!(EndpointPool::new(Vec::new()).is_none());
}

#[test]
fn pool_of_one_always_selects_it() {
    let mut endpoints = pool(&["only"]);
    assert_eq!(endpoints.next_endpoint(), 0);
    assert_eq!(endpoints.next_endpoint(), 0);
    assert_eq!(endpoints.endpoint(0), "only");
}

#[test]
fn create_chain_advances_the_shared_pool() {
    let mut chains: Chains<u32> = Chains::new(pool(&["A", "B"]));
    assert_eq!(create_chain(&mut chains), 0);
    assert_eq!(create_chain(&mut chains), 1);
    assert_eq!(create_chain(&mut chains), 0);
    assert_eq!(chains.endpoints().endpoint(1), "B");
}

#[test]
fn shared_connection_is_opened_once_for_many_requests() {
    let mut chains: Chains<&str> = Chains::new(pool(&["A", "B", "C"]));
    let mut connects = 0;
    let mut handed_out = Vec::new();
    for worker in 0..5 {
        let mut scope = WorkerChain::new();
        match get_chain(&mut chains, &scope, ConnectionPolicy::Shared) {
            ChainAction::Reuse => {}
            ChainAction::Connect(index) => {
                connects += 1;
                assert_eq!(index, 0);
                let handle = if worker == 0 { "first" } else { "later" };
                chains.chain_connected(&mut scope, ConnectionPolicy::Shared, handle);
            }
        }
        handed_out.push(*chains.chain(&scope, ConnectionPolicy::Shared).unwrap());
        assert!(chains.chain(&scope, ConnectionPolicy::PerScope).is_none());
    }
    assert_eq!(connects, 1);
    assert_eq!(handed_out, vec!["first"; 5]);
    // Only one endpoint was used up.
    assert_eq!(create_chain(&mut chains), 1);
}

#[test]
fn first_connection_handed_in_stays() {
    let mut chains: Chains<u32> = Chains::new(pool(&["A"]));
    let mut scope = WorkerChain::new();
    chains.chain_connected(&mut scope, ConnectionPolicy::Shared, 10);
    chains.chain_connected(&mut scope, ConnectionPolicy::Shared, 20);
    assert_eq!(chains.chain(&scope, ConnectionPolicy::Shared), Some(&10));
    chains.chain_connected(&mut scope, ConnectionPolicy::PerScope, 30);
    chains.chain_connected(&mut scope, ConnectionPolicy::PerScope, 40);
    assert_eq!(chains.chain(&scope, ConnectionPolicy::PerScope), Some(&30));
    assert_eq!(chains.chain(&scope, ConnectionPolicy::Shared), Some(&10));
}

#[test]
fn failed_connect_leaves_the_slot_empty() {
    let mut chains: Chains<u32> = Chains::new(pool(&["A", "B"]));
    let scope = WorkerChain::new();
    // The caller is told to connect and never hands a connection in.
    assert_eq!(get_chain(&mut chains, &scope, ConnectionPolicy::Shared), ChainAction::Connect(0));
    assert!(chains.chain(&scope, ConnectionPolicy::Shared).is_none());
    // The next caller is told to connect again, to the next endpoint.
    assert_eq!(get_chain(&mut chains, &scope, ConnectionPolicy::Shared), ChainAction::Connect(1));
}

#[test]
fn each_scope_opens_its_own_connection() {
    let mut chains: Chains<u32> = Chains::new(pool(&["A", "B"]));
    let mut first = WorkerChain::new();
    let mut second = WorkerChain::new();
    let action = get_chain(&mut chains, &first, ConnectionPolicy::PerScope);
    assert_eq!(action, ChainAction::Connect(0));
    chains.chain_connected(&mut first, ConnectionPolicy::PerScope, 100);
    let action = get_chain(&mut chains, &second, ConnectionPolicy::PerScope);
    assert_eq!(action, ChainAction::Connect(1));
    chains.chain_connected(&mut second, ConnectionPolicy::PerScope, 200);
    assert_eq!(get_chain(&mut chains, &first, ConnectionPolicy::PerScope), ChainAction::Reuse);
    assert_eq!(chains.chain(&first, ConnectionPolicy::PerScope), Some(&100));
    assert_eq!(chains.chain(&second, ConnectionPolicy::PerScope), Some(&200));
    assert!(chains.chain(&first, ConnectionPolicy::Shared).is_none());
}

#[test]
fn chain_id_is_memoized_once() {
    let mut chains: Chains<u32> = Chains::new(pool(&["A"]));
    assert_eq!(get_chain_id(&chains), ChainIdAction::Query);
    assert_eq!(chains.chain_id_resolved(U256::from_u64(56)), Ok(56));
    assert_eq!(get_chain_id(&chains), ChainIdAction::Known(56));
    // A later answer does not replace it.
    assert_eq!(chains.chain_id_resolved(U256::from_u64(1)), Ok(56));
    assert_eq!(chains.chain_id_resolved(U256::max_value()), Ok(56));
    assert_eq!(get_chain_id(&chains), ChainIdAction::Known(56));
}

#[test]
fn chain_id_above_64_bits_is_not_kept() {
    let mut chains: Chains<u32> = Chains::new(pool(&["A"]));
    let wide = U256 { limbs: [5, 1, 0, 0] };
    assert_eq!(chains.chain_id_resolved(wide), Err(ChainIdTooWide));
    assert_eq!(get_chain_id(&chains), ChainIdAction::Query);
    assert_eq!(chains.chain_id_resolved(U256::from_u64(u64::MAX)), Ok(u64::MAX));
}
