//! Role assignment over the rotated key ring.

use vstd::prelude::*;

use crate::config::{max_count, Config};
use crate::types::SecretKey;

verus! {

/// How far the key ring is rotated before roles are read off it.
pub struct PrivateKeysOptions {
    pub rotate: usize,
}

/// The ordered, never empty list of secret keys that roles are drawn from.
pub struct KeyRing {
    keys: Vec<SecretKey>,
}

impl View for KeyRing {
    type V = Seq<SecretKey>;

    closed spec fn view(&self) -> Seq<SecretKey> {
        self.keys@
    }
}

impl KeyRing {
    /// A ring holds at least one key.
    #[verifier::type_invariant]
    pub closed spec fn wf(&self) -> bool {
        self.keys@.len() > 0
    }

    /// Makes a ring of these keys, in this order; an empty list is no ring.
    pub fn new(keys: Vec<SecretKey>) -> (ring: Option<KeyRing>)
        ensures
            ring.is_some() == (keys@.len() > 0),
            ring.is_some() ==> ring.unwrap()@ == keys@,
    {
        if keys.len() == 0 {
            None
        } else {
            Some(KeyRing { keys })
        }
    }

    /// Number of keys.
    pub fn len(&self) -> (n: usize)
        ensures
            n == self@.len(),
            n > 0,
    {
        proof {
            use_type_invariant(self);
        }
        self.keys.len()
    }

    /// The key at `index`.
    pub fn key(&self, index: usize) -> (key: SecretKey)
        requires
            index < self@.len(),
        ensures
            key == self@[index as int],
    {
        self.keys[index]
    }
}

/// A ring turned left by `rotate` places: position `i` holds what stood at
/// `i + rotate`, counted round the ring.
pub open spec fn rotated<K>(ring: Seq<K>, rotate: nat) -> Seq<K> {
    Seq::new(ring.len(), |i: int| ring[(i + rotate) % (ring.len() as int)])
}

/// The smaller of two counts.
pub open spec fn min_count(a: int, b: int) -> int {
    if a <= b {
        a
    } else {
        b
    }
}

/// At most `count` keys of `keys` from position `start` on.
pub open spec fn window<K>(keys: Seq<K>, start: int, count: int) -> Seq<K> {
    keys.subrange(min_count(start, keys.len() as int), min_count(start + count, keys.len() as int))
}

/// The key that sends: the first of the rotated ring.
pub open spec fn sender_of<K>(ring: Seq<K>, rotate: nat) -> K {
    rotated(ring, rotate)[0]
}

/// The keys that receive: up to `snipers` keys of the rotated ring, from
/// the sender on where the caller is included, else from the key after it.
pub open spec fn recipients_of<K>(ring: Seq<K>, rotate: nat, snipers: nat, include_caller: bool) -> Seq<K> {
    window(rotated(ring, rotate), if include_caller { 0 } else { 1 }, snipers as int)
}

/// The keys that sign approvals: up to `approve_count` keys of the rotated
/// ring, from the sender on.
pub open spec fn approve_signers_of<K>(ring: Seq<K>, rotate: nat, approve_count: nat) -> Seq<K> {
    window(rotated(ring, rotate), 0, approve_count as int)
}

/// The keys of one worker, by role.
pub struct PrivateKeys {
    pub sender_key: SecretKey,
    pub recipient_keys: Vec<SecretKey>,
    pub approve_sniper_keys: Vec<SecretKey>,
}

/// The ring turned left by `rotate` places.
fn rotate_left(ring: &KeyRing, rotate: usize) -> (turned: Vec<SecretKey>)
    ensures
        turned@ == rotated(ring@, rotate as nat),
{
    let n = ring.len();
    let shift = rotate % n;
    proof {
        vstd::arithmetic::div_mod::lemma_fundamental_div_mod(rotate as int, n as int);
    }
    let mut turned: Vec<SecretKey> = Vec::new();
    let mut i: usize = 0;
    while i < n
        invariant
            n == ring@.len(),
            n > 0,
            shift == rotate % n,
            i <= n,
            turned@.len() == i,
            forall|j: int| 0 <= j < i ==> turned@[j] == ring@[(j + rotate) % (n as int)],
        decreases n - i,
    {
        let from: usize = if i >= n - shift {
            i - (n - shift)
        } else {
            i + shift
        };
        proof {
            lemma_turned_index(i as int, rotate as int, n as int);
        }
        turned.push(ring.key(from));
        i = i + 1;
    }
    turned
}

/// Position `i` of a ring of `n` keys turned by `rotate` is `i` moved on
/// by `rotate mod n`, less `n` where that runs past the end.
proof fn lemma_turned_index(i: int, rotate: int, n: int)
    requires
        0 <= i < n,
        0 <= rotate,
    ensures
        (i + rotate) % n == if i >= n - rotate % n {
            i - (n - rotate % n)
        } else {
            i + rotate % n
        },
{
    let shift = rotate % n;
    vstd::arithmetic::div_mod::lemma_add_mod_noop_right(i, rotate, n);
    if i + shift >= n {
        vstd::arithmetic::div_mod::lemma_mod_sub_multiples_vanish(i + shift, n);
        vstd::arithmetic::div_mod::lemma_small_mod((i + shift - n) as nat, n as nat);
    } else {
        vstd::arithmetic::div_mod::lemma_small_mod((i + shift) as nat, n as nat);
    }
}

/// At most `count` keys of `keys` from position `start` on.
pub(crate) fn take_window(keys: &Vec<SecretKey>, start: usize, count: usize) -> (taken: Vec<SecretKey>)
    ensures
        taken@ == window(keys@, start as int, count as int),
{
    let n = keys.len();
    let from: usize = if start <= n {
        start
    } else {
        n
    };
    let upto: usize = if count <= n - from {
        from + count
    } else {
        n
    };
    let mut taken: Vec<SecretKey> = Vec::new();
    let mut i: usize = from;
    while i < upto
        invariant
            from <= i <= upto <= n,
            n == keys@.len(),
            taken@ == keys@.subrange(from as int, i as int),
        decreases upto - i,
    {
        taken.push(keys[i]);
        i = i + 1;
    }
    taken
}

impl PrivateKeys {
    /// Reads the roles of one worker off the ring turned by
    /// `options.rotate`: its first key sends; up to `config.buy.snipers`
    /// keys receive, the sender among them only where
    /// `config.buy.include_caller` is set; and the first keys, one per
    /// worker or per sniper, whichever is more, sign approvals.
    pub fn new(options: PrivateKeysOptions, ring: &KeyRing, config: &Config) -> (keys: PrivateKeys)
        ensures
            keys.sender_key == sender_of(ring@, options.rotate as nat),
            keys.recipient_keys@ == recipients_of(
                ring@,
                options.rotate as nat,
                config.buy.snipers as nat,
                config.buy.include_caller,
            ),
            keys.approve_sniper_keys@ == approve_signers_of(
                ring@,
                options.rotate as nat,
                config.approve_snipers() as nat,
            ),
    {
        let n = ring.len();
        let rotated_keys = rotate_left(ring, options.rotate);
        let sender_key = rotated_keys[0];
        let skip: usize = if config.buy.include_caller {
            0
        } else {
            1
        };
        let recipient_keys = take_window(&rotated_keys, skip, config.buy.snipers);
        let approve_sniper_keys = take_window(&rotated_keys, 0, config.get_approve_snipers());
        PrivateKeys { sender_key, recipient_keys, approve_sniper_keys }
    }
}

/// With the caller left out, a ring of `N` keys gives `snipers` recipients,
/// or `N - 1` where it holds no more, whatever the rotation.
pub proof fn lemma_recipient_count<K>(ring: Seq<K>, rotate: nat, snipers: nat)
    requires
        ring.len() > 0,
    ensures
        recipients_of(ring, rotate, snipers, false).len() == min_count(
            snipers as int,
            ring.len() - 1,
        ),
{
}

/// With the caller left out, the sender of a ring of distinct keys is not
/// among the recipients, whatever the rotation and the number of snipers.
pub proof fn lemma_sender_not_recipient<K>(ring: Seq<K>, rotate: nat, snipers: nat)
    requires
        ring.len() > 0,
        ring.no_duplicates(),
    ensures
        !recipients_of(ring, rotate, snipers, false).contains(sender_of(ring, rotate)),
{
    let n = ring.len() as int;
    let turned = rotated(ring, rotate);
    let recipients = recipients_of(ring, rotate, snipers, false);
    if recipients.contains(sender_of(ring, rotate)) {
        let k = choose|k: int| 0 <= k < recipients.len() && recipients[k] == sender_of(ring, rotate);
        let j = k + 1;
        assert(recipients[k] == turned[j]);
        assert(turned[j] == ring[(j + rotate) % n]);
        assert(turned[0] == ring[(0int + rotate) % n]);
        lemma_turned_index(j, rotate as int, n);
        lemma_turned_index(0, rotate as int, n);
        assert((j + rotate) % n != (0int + rotate) % n);
    }
}

/// Where the ring holds a key for every approval, as many keys sign
/// approvals as there are workers or snipers, whichever is more, whatever
/// the rotation.
pub proof fn lemma_approve_signer_count<K>(ring: Seq<K>, rotate: nat, workers: nat, snipers: nat)
    requires
        ring.len() >= max_count(workers as int, snipers as int),
    ensures
        approve_signers_of(
            ring,
            rotate,
            max_count(workers as int, snipers as int) as nat,
        ).len() == max_count(workers as int, snipers as int),
{
}

/// Where at least one key signs approvals, the sender is among the signers.
pub proof fn lemma_sender_signs_approvals<K>(ring: Seq<K>, rotate: nat, approve_count: nat)
    requires
        ring.len() > 0,
        approve_count >= 1,
    ensures
        approve_signers_of(ring, rotate, approve_count).contains(sender_of(ring, rotate)),
{
    let signers = approve_signers_of(ring, rotate, approve_count);
    assert(signers[0] == sender_of(ring, rotate));
}

} // verus!
