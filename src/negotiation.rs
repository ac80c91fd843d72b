//! Creation of a hardware rendering context with graceful degradation of the
//! multisampling level.

use vstd::prelude::*;

verus! {

/// The highest multisample anti-aliasing level that is asked for.
pub const MAX_MSAA: u16 = 8;

/// The levels tried from `level` down: each one is half the previous (rounded down),
/// and the level 0 is the last one.
pub open spec fn levels_from(level: u16) -> Seq<u16>
    decreases level,
{
    if level == 0 {
        seq![0u16]
    } else {
        seq![level].add(levels_from(level / 2))
    }
}

/// The order in which multisampling levels are tried: 8, 4, 2, 1, 0.
pub open spec fn msaa_schedule() -> Seq<u16> {
    levels_from(MAX_MSAA)
}

/// The schedule, written out.
pub proof fn lemma_msaa_schedule()
    ensures
        msaa_schedule() =~= seq![8u16, 4, 2, 1, 0],
{
    reveal_with_fuel(levels_from, 5);
}

/// One failed attempt: the multisampling level asked for and why it was refused.
pub struct ContextConfiguration {
    pub msaa: u16,
    pub error: String,
}

/// Every attempt that failed, in the order in which they were made.
pub struct TriedConfigurations(pub Vec<ContextConfiguration>);

/// A rendering context together with the level it was created at and the attempts
/// that failed before it.
pub struct Negotiated<C> {
    pub context: C,
    pub msaa: u16,
    pub tried: TriedConfigurations,
}

/// `tried` lists failures of `attempt`, one for each level of the schedule from the
/// first on, in order.
pub open spec fn failed_in_order<C, F: Fn(u16) -> Result<C, String>>(
    attempt: F,
    tried: Seq<ContextConfiguration>,
) -> bool {
    &&& tried.len() <= msaa_schedule().len()
    &&& forall|i: int|
        0 <= i < tried.len() ==> {
            &&& #[trigger] tried[i].msaa == msaa_schedule()[i]
            &&& attempt.ensures((tried[i].msaa,), Err(tried[i].error))
        }
}

/// What a negotiation driven by `attempt` ends with: a context from the first level
/// that succeeded, after failures at every earlier level; or, when every level failed,
/// the failure of each one.
pub open spec fn negotiation_outcome<C, F: Fn(u16) -> Result<C, String>>(
    attempt: F,
    r: Result<Negotiated<C>, TriedConfigurations>,
) -> bool {
    match r {
        Ok(n) => {
            &&& n.tried.0@.len() < msaa_schedule().len()
            &&& failed_in_order(attempt, n.tried.0@)
            &&& n.msaa == msaa_schedule()[n.tried.0@.len() as int]
            &&& attempt.ensures((n.msaa,), Ok(n.context))
        },
        Err(t) => {
            &&& t.0@.len() == msaa_schedule().len()
            &&& failed_in_order(attempt, t.0@)
        },
    }
}

/// Tries to create a rendering context with `attempt`, starting at the highest
/// multisampling level and halving it after each failure, down to 0.
pub fn negotiate<C, F: Fn(u16) -> Result<C, String>>(attempt: F) -> (r: Result<
    Negotiated<C>,
    TriedConfigurations,
>)
    requires
        forall|level: u16| attempt.requires((level,)),
    ensures
        negotiation_outcome(attempt, r),
{
    proof {
        lemma_msaa_schedule();
    }
    let mut tried: Vec<ContextConfiguration> = Vec::new();
    let mut msaa: u16 = MAX_MSAA;
    loop
        invariant
            tried@.len() < msaa_schedule().len(),
            msaa == msaa_schedule()[tried@.len() as int],
            failed_in_order(attempt, tried@),
            forall|level: u16| attempt.requires((level,)),
            msaa_schedule() =~= seq![8u16, 4, 2, 1, 0],
        decreases msaa_schedule().len() - tried@.len(),
    {
        match attempt(msaa) {
            Ok(context) => {
                return Ok(Negotiated { context, msaa, tried: TriedConfigurations(tried) });
            },
            Err(error) => {
                let ghost before = tried@;
                tried.push(ContextConfiguration { msaa, error });
                assert forall|i: int| 0 <= i < tried@.len() implies {
                    &&& #[trigger] tried@[i].msaa == msaa_schedule()[i]
                    &&& attempt.ensures((tried@[i].msaa,), Err(tried@[i].error))
                } by {
                    if i < before.len() {
                        assert(tried@[i] == before[i]);
                    }
                }
                if msaa == 0 {
                    return Err(TriedConfigurations(tried));
                }
                msaa = msaa / 2;
            },
        }
    }
}

/// The levels of a list of attempts, in order.
pub open spec fn tried_levels(tried: Seq<ContextConfiguration>) -> Seq<u16> {
    tried.map_values(|c: ContextConfiguration| c.msaa)
}

/// `attempt` stands for a platform that accepts exactly the levels in `accepts`, every
/// time it is asked.
pub open spec fn decides_by<C, F: Fn(u16) -> Result<C, String>>(
    attempt: F,
    accepts: spec_fn(u16) -> bool,
) -> bool {
    forall|level: u16, res: Result<C, String>|
        #[trigger] attempt.ensures((level,), res) ==> (res is Ok <==> accepts(level))
}

/// On a platform that refuses the first `k` levels of the schedule and accepts the
/// next one, the negotiation succeeds at that level, having recorded exactly the `k`
/// refused levels, highest first.
pub proof fn lemma_first_accepted_level_wins<C, F: Fn(u16) -> Result<C, String>>(
    attempt: F,
    accepts: spec_fn(u16) -> bool,
    r: Result<Negotiated<C>, TriedConfigurations>,
    k: int,
)
    requires
        negotiation_outcome(attempt, r),
        decides_by(attempt, accepts),
        0 <= k < msaa_schedule().len(),
        forall|i: int| 0 <= i < k ==> !accepts(#[trigger] msaa_schedule()[i]),
        accepts(msaa_schedule()[k]),
    ensures
        r is Ok,
        r->Ok_0.msaa == msaa_schedule()[k],
        tried_levels(r->Ok_0.tried.0@) == msaa_schedule().take(k),
{
    match r {
        Ok(n) => {
            let j = n.tried.0@.len() as int;
            if j < k {
                assert(attempt.ensures((msaa_schedule()[j],), Ok::<C, String>(n.context)));
                assert(!accepts(msaa_schedule()[j]));
            }
            if j > k {
                assert(n.tried.0@[k].msaa == msaa_schedule()[k]);
                assert(attempt.ensures((msaa_schedule()[k],), Err::<C, String>(n.tried.0@[k].error)));
            }
            assert(tried_levels(n.tried.0@) =~= msaa_schedule().take(k));
        },
        Err(t) => {
            assert(t.0@[k].msaa == msaa_schedule()[k]);
            assert(attempt.ensures((msaa_schedule()[k],), Err::<C, String>(t.0@[k].error)));
        },
    }
}

/// On a platform that refuses every level, the negotiation fails, and its failure holds
/// one attempt for each level of the schedule, in the order tried.
pub proof fn lemma_every_level_refused<C, F: Fn(u16) -> Result<C, String>>(
    attempt: F,
    accepts: spec_fn(u16) -> bool,
    r: Result<Negotiated<C>, TriedConfigurations>,
)
    requires
        negotiation_outcome(attempt, r),
        decides_by(attempt, accepts),
        forall|i: int| 0 <= i < msaa_schedule().len() ==> !accepts(#[trigger] msaa_schedule()[i]),
    ensures
        r is Err,
        tried_levels(r->Err_0.0@) == msaa_schedule(),
{
    match r {
        Ok(n) => {
            let j = n.tried.0@.len() as int;
            assert(attempt.ensures((msaa_schedule()[j],), Ok::<C, String>(n.context)));
        },
        Err(t) => {
            assert(tried_levels(t.0@) =~= msaa_schedule());
        },
    }
}

/// The decimal digit `d`.
pub open spec fn digit_char(d: nat) -> char {
    seq!['0', '1', '2', '3', '4', '5', '6', '7', '8', '9'][d as int]
}

/// `n` written in decimal, without leading zeros.
pub open spec fn decimal(n: nat) -> Seq<char>
    decreases n,
{
    if n < 10 {
        seq![digit_char(n)]
    } else {
        decimal(n / 10) + seq![digit_char(n % 10)]
    }
}

/// The line that reports one failed attempt.
pub open spec fn attempt_line(c: ContextConfiguration) -> Seq<char> {
    "- MSAA: "@ + decimal(c.msaa as nat) + ", failed with '"@ + c.error@ + "'\n"@
}

/// The report of a list of failed attempts: one line each, in order.
pub open spec fn tried_text(tried: Seq<ContextConfiguration>) -> Seq<char>
    decreases tried.len(),
{
    if tried.len() == 0 {
        Seq::empty()
    } else {
        tried_text(tried.drop_last()) + attempt_line(tried.last())
    }
}

/// Appends `n` in decimal to `out`.
fn push_decimal(out: &mut String, n: u16)
    ensures
        final(out)@ == old(out)@ + decimal(n as nat),
    decreases n,
{
    let digits = "0123456789";
    proof {
        reveal_strlit("0123456789");
    }
    if n >= 10 {
        push_decimal(out, n / 10);
    }
    let d: usize = (n % 10) as usize;
    let digit = digits.substring_char(d, d + 1);
    assert(digit@ =~= seq![digit_char(d as nat)]);
    out.append(digit);
}

impl TriedConfigurations {
    /// A human-readable report with one line per failed attempt, in the order tried.
    pub fn describe(&self) -> (r: String)
        ensures
            r@ == tried_text(self.0@),
    {
        let mut out = String::new();
        let mut i: usize = 0;
        while i < self.0.len()
            invariant
                i <= self.0@.len(),
                out@ == tried_text(self.0@.take(i as int)),
            decreases self.0@.len() - i,
        {
            let c = &self.0[i];
            out.append("- MSAA: ");
            push_decimal(&mut out, c.msaa);
            out.append(", failed with '");
            out.append(c.error.as_str());
            out.append("'\n");
            assert(self.0@.take(i + 1).drop_last() =~= self.0@.take(i as int));
            i = i + 1;
        }
        assert(self.0@.take(i as int) =~= self.0@);
        out
    }
}

} // verus!
