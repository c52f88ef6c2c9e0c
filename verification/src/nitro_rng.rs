use vstd::prelude::*;

verus! {

/// Entropy source backed by the enclave's secure module, reached through a
/// descriptor of its device.
#[derive(Debug)]
pub struct NitroRng {
    fd: i32,
}

/// The state of one fill: how many bytes are wanted, and those gathered so far.
#[derive(Debug)]
pub struct Fill {
    wanted: usize,
    gathered: Vec<u8>,
}

/// Where a fill stands after a step.
#[derive(Debug)]
pub enum FillProgress {
    /// The module has to be asked for more bytes, and its answer absorbed.
    More(Fill),
    /// The buffer is full: these are its bytes.
    Full(Vec<u8>),
    /// The module cannot be asked, or failed, or gave nothing.
    Failed,
}

/// A [`FillProgress`] as a mathematical value.
pub enum ProgressView {
    More { wanted: nat, gathered: Seq<u8> },
    Full(Seq<u8>),
    Failed,
}

impl View for FillProgress {
    type V = ProgressView;

    open spec fn view(&self) -> ProgressView {
        match self {
            FillProgress::More(fill) => ProgressView::More {
                wanted: fill.wanted(),
                gathered: fill.gathered(),
            },
            FillProgress::Full(bytes) => ProgressView::Full(bytes@),
            FillProgress::Failed => ProgressView::Failed,
        }
    }
}

/// The fill before anything is gathered: it cannot start without a device
/// (`fd < 0`) or for an empty buffer.
pub open spec fn started(fd: i32, wanted: nat) -> ProgressView {
    if fd < 0 || wanted == 0 {
        ProgressView::Failed
    } else {
        ProgressView::More { wanted, gathered: Seq::<u8>::empty() }
    }
}

/// The fill after the module's answer: a failure and an empty answer end it;
/// otherwise as many bytes of the answer as are still wanted are taken, in
/// their order, and the fill is full once none is wanted any more.
pub open spec fn absorbed(wanted: nat, gathered: Seq<u8>, response: Option<Seq<u8>>)
    -> ProgressView {
    match response {
        None => ProgressView::Failed,
        Some(random) => {
            if random.len() == 0 {
                ProgressView::Failed
            } else {
                let missing = wanted - gathered.len();
                let taken = if random.len() < missing {
                    random
                } else {
                    random.subrange(0, missing)
                };
                if gathered.len() + taken.len() == wanted {
                    ProgressView::Full(gathered + taken)
                } else {
                    ProgressView::More { wanted, gathered: gathered + taken }
                }
            }
        },
    }
}

impl Fill {
    /// Fewer bytes are gathered than wanted.
    pub closed spec fn wf(&self) -> bool {
        self.gathered@.len() < self.wanted
    }

    pub closed spec fn wanted(&self) -> nat {
        self.wanted as nat
    }

    pub closed spec fn gathered(&self) -> Seq<u8> {
        self.gathered@
    }

    /// How many bytes are still missing.
    pub fn missing(&self) -> (n: usize)
        requires
            self.wf(),
        ensures
            n == self.wanted() - self.gathered().len(),
            n > 0,
    {
        self.wanted - self.gathered.len()
    }

    /// Takes in what the module answered to one request for random bytes
    /// (nothing when it reported an error).
    pub fn absorb(self, response: Option<Vec<u8>>) -> (p: FillProgress)
        requires
            self.wf(),
        ensures
            p@ == absorbed(
                self.wanted(),
                self.gathered(),
                match response {
                    Some(random) => Some(random@),
                    None => None,
                },
            ),
            p matches FillProgress::More(next) ==> next.wf(),
    {
        let random = match response {
            Some(random) => random,
            None => {
                return FillProgress::Failed;
            },
        };
        if random.len() == 0 {
            return FillProgress::Failed;
        }
        let missing = self.wanted - self.gathered.len();
        let take = if random.len() < missing {
            random.len()
        } else {
            missing
        };
        let mut gathered = self.gathered;
        let mut i: usize = 0;
        while i < take
            invariant
                i <= take <= random@.len(),
                gathered@ == self.gathered@ + random@.subrange(0, i as int),
            decreases take - i,
        {
            gathered.push(random[i]);
            assert(gathered@ =~= self.gathered@ + random@.subrange(0, i + 1));
            i = i + 1;
        }
        assert(random@.subrange(0, random@.len() as int) =~= random@);
        if gathered.len() == self.wanted {
            FillProgress::Full(gathered)
        } else {
            FillProgress::More(Fill { wanted: self.wanted, gathered })
        }
    }
}

impl NitroRng {
    pub closed spec fn spec_fd(&self) -> i32 {
        self.fd
    }

    pub fn new(fd: i32) -> (rng: NitroRng)
        ensures
            rng.spec_fd() == fd,
    {
        NitroRng { fd }
    }

    /// The descriptor of the secure module's device.
    pub fn fd(&self) -> (fd: i32)
        ensures
            fd == self.spec_fd(),
    {
        self.fd
    }

    /// Starts filling a buffer of `wanted` bytes.
    pub fn begin_fill(&self, wanted: usize) -> (p: FillProgress)
        ensures
            p@ == started(self.spec_fd(), wanted as nat),
            p matches FillProgress::More(fill) ==> fill.wf(),
    {
        if self.fd < 0 || wanted == 0 {
            FillProgress::Failed
        } else {
            FillProgress::More(Fill { wanted, gathered: Vec::new() })
        }
    }
}

/// A fill never ends with another number of bytes than was wanted, never
/// loses a byte it has gathered, and every answer that does not end it
/// brings it at least one byte nearer to its end.
pub proof fn lemma_fill_makes_progress(wanted: nat, gathered: Seq<u8>, response: Option<Seq<u8>>)
    requires
        gathered.len() < wanted,
    ensures
        match absorbed(wanted, gathered, response) {
            ProgressView::Full(bytes) => bytes.len() == wanted && gathered.is_prefix_of(bytes),
            ProgressView::More { wanted: still, gathered: more } => still == wanted && gathered.len()
                < more.len() < wanted && gathered.is_prefix_of(more),
            ProgressView::Failed => response is None || response->0.len() == 0,
        },
{
}

} // verus!
