use vstd::prelude::*;

verus! {

/// Sends messages to a Cosmos chain in one transaction: each message is
/// encoded with the signer's address; one that fails to encode aborts the
/// whole batch before anything is sent.
#[derive(Clone, Copy, Debug, PartialEq, Eq, Structural)]
pub struct CosmosBaseMessageSender;

/// Every encoding of `encoded[0..n]` succeeded.
pub open spec fn all_encoded<E>(encoded: Seq<Result<Vec<u8>, E>>, n: int) -> bool {
    forall|i: int| 0 <= i < n ==> (#[trigger] encoded[i]) is Ok
}

impl CosmosBaseMessageSender {
    /// The encoded messages in their order where every one encoded, else the
    /// first encoding error.
    pub fn collect_raw_messages<E>(encoded: Vec<Result<Vec<u8>, E>>) -> (r: Result<Vec<Vec<u8>>, E>)
        ensures
            all_encoded(encoded@, encoded@.len() as int) ==> r is Ok && r->Ok_0@.len() == encoded@.len()
                && forall|i: int| 0 <= i < encoded@.len() ==> #[trigger] r->Ok_0@[i] == encoded@[i]->Ok_0,
            !all_encoded(encoded@, encoded@.len() as int) ==> exists|k: int|
                0 <= k < encoded@.len() && all_encoded(encoded@, k) && encoded@[k] is Err
                    && r == Err::<Vec<Vec<u8>>, E>(encoded@[k]->Err_0),
    {
        let n = encoded.len();
        let mut k: usize = 0;
        while k < n
            invariant
                n == encoded@.len(),
                k <= n,
                all_encoded(encoded@, k as int),
            decreases n - k,
        {
            if encoded[k].is_err() {
                let mut encoded = encoded;
                let first = encoded.swap_remove(k);
                return Err(first.unwrap_err());
            }
            k = k + 1;
        }
        let mut rest = encoded;
        let mut reversed: Vec<Vec<u8>> = Vec::new();
        while rest.len() > 0
            invariant
                all_encoded(encoded@, n as int),
                n == encoded@.len(),
                rest@ == encoded@.subrange(0, rest@.len() as int),
                reversed@.len() + rest@.len() == n,
                forall|j: int| 0 <= j < reversed@.len() ==> #[trigger] reversed@[j] == encoded@[n - 1 - j]->Ok_0,
            decreases rest@.len(),
        {
            if let Some(Ok(m)) = rest.pop() {
                reversed.push(m);
            }
        }
        let mut out: Vec<Vec<u8>> = Vec::new();
        while reversed.len() > 0
            invariant
                n == encoded@.len(),
                reversed@.len() + out@.len() == n,
                forall|j: int| 0 <= j < reversed@.len() ==> #[trigger] reversed@[j] == encoded@[n - 1 - j]->Ok_0,
                forall|j: int| 0 <= j < out@.len() ==> #[trigger] out@[j] == encoded@[j]->Ok_0,
            decreases reversed@.len(),
        {
            if let Some(m) = reversed.pop() {
                out.push(m);
            }
        }
        Ok(out)
    }
}

} // verus!
