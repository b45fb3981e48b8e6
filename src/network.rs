use vstd::prelude::*;

verus! {

/// Whether no participant identity occurs twice in `ids`.
pub open spec fn distinct_ids(ids: Seq<u64>) -> bool {
    forall|i: int, j: int| 0 <= i < j < ids.len() ==> ids[i] != ids[j]
}

/// The position of `id` in the committee, if it is a member.
pub open spec fn index_in(ids: Seq<u64>, id: u64) -> Option<nat> {
    if exists|i: int| 0 <= i < ids.len() && ids[i] == id {
        Some((choose|i: int| 0 <= i < ids.len() && ids[i] == id) as nat)
    } else {
        None
    }
}

/// What the local participant knows of the committee: its members in index order, the local
/// identity, whether the local participant holds a secret key share, and the fault bound `f`.
///
/// The key material itself stays with the threshold-crypto engine of the surrounding system: a
/// member of the committee is exactly a participant whose public key share is known.
pub struct NetworkInfo {
    our_uid: u64,
    all_uids: Vec<u64>,
    is_validator: bool,
    num_faulty: usize,
}

impl NetworkInfo {
    pub closed spec fn our_uid_spec(&self) -> u64 {
        self.our_uid
    }

    pub closed spec fn committee(&self) -> Seq<u64> {
        self.all_uids@
    }

    pub closed spec fn is_validator_spec(&self) -> bool {
        self.is_validator
    }

    pub closed spec fn num_faulty_spec(&self) -> nat {
        self.num_faulty as nat
    }

    /// The committee lists each member once.
    pub open spec fn wf(&self) -> bool {
        distinct_ids(self.committee())
    }

    /// Builds the committee view; fails when an identity is listed twice.
    pub fn new(our_uid: u64, all_uids: Vec<u64>, is_validator: bool, num_faulty: usize) -> (r:
        Option<NetworkInfo>)
        ensures
            r.is_some() <==> distinct_ids(all_uids@),
            r.is_some() ==> {
                let n = r.unwrap();
                &&& n.wf()
                &&& n.our_uid_spec() == our_uid
                &&& n.committee() == all_uids@
                &&& n.is_validator_spec() == is_validator
                &&& n.num_faulty_spec() == num_faulty
            },
    {
        let len = all_uids.len();
        let mut i: usize = 0;
        while i < len
            invariant
                len == all_uids.len(),
                i <= len,
                forall|a: int, b: int| 0 <= a < b < len && a < i ==> all_uids[a] != all_uids[b],
            decreases len - i,
        {
            let mut j: usize = i + 1;
            while j < len
                invariant
                    len == all_uids.len(),
                    i < len,
                    i < j <= len,
                    forall|a: int, b: int| 0 <= a < b < len && a < i ==> all_uids[a] != all_uids[b],
                    forall|b: int| i < b < j ==> all_uids[i as int] != all_uids[b],
                decreases len - j,
            {
                if all_uids[i] == all_uids[j] {
                    return None;
                }
                j = j + 1;
            }
            i = i + 1;
        }
        Some(NetworkInfo { our_uid, all_uids, is_validator, num_faulty })
    }

    /// The identity of the local participant.
    pub fn our_uid(&self) -> (r: u64)
        ensures
            r == self.our_uid_spec(),
    {
        self.our_uid
    }

    /// Whether the local participant holds a secret key share and so signs.
    pub fn is_validator(&self) -> (r: bool)
        ensures
            r == self.is_validator_spec(),
    {
        self.is_validator
    }

    /// The largest number of faulty participants tolerated.
    pub fn num_faulty(&self) -> (r: usize)
        ensures
            r == self.num_faulty_spec(),
    {
        self.num_faulty
    }

    /// The number of committee members.
    pub fn num_nodes(&self) -> (r: usize)
        ensures
            r == self.committee().len(),
    {
        self.all_uids.len()
    }

    /// The committee index of `id`, or `None` for a participant whose key share is unknown.
    pub fn node_index(&self, id: u64) -> (r: Option<usize>)
        requires
            self.wf(),
        ensures
            r.is_some() <==> index_in(self.committee(), id).is_some(),
            r.is_some() ==> index_in(self.committee(), id) == Some(r.unwrap() as nat),
            r.is_some() ==> r.unwrap() < self.committee().len() && self.committee()[r.unwrap()
                as int] == id,
    {
        let mut i: usize = 0;
        while i < self.all_uids.len()
            invariant
                self.wf(),
                i <= self.all_uids.len(),
                forall|k: int| 0 <= k < i ==> self.all_uids[k] != id,
            decreases self.all_uids.len() - i,
        {
            if self.all_uids[i] == id {
                proof {
                    let ids = self.all_uids@;
                    assert(ids[i as int] == id);
                    let c = choose|k: int| 0 <= k < ids.len() && ids[k] == id;
                    if c < i {
                        assert(ids[c] != ids[i as int]);
                    } else if c > i {
                        assert(ids[i as int] != ids[c]);
                    }
                }
                return Some(i);
            }
            i = i + 1;
        }
        None
    }
}

} // verus!
