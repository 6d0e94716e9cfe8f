//! The Rescue-like permutation: per active round, a pair of round constants
//! is added to the rate registers and another pair to the capacity registers,
//! an element-wise S-box is applied (the cube on even rounds; on odd rounds
//! the inverse-direction S-box, whose candidate output is checked to cube
//! back to its input rather than ever evaluating a literal cube root), a
//! fixed 4x4 diffusion matrix mixes the four registers, and the same round
//! constants are added once more.

use vstd::prelude::*;
use crate::field::{Felt, f_add, f_sub, f_mul, f_cube, f_pow};

verus! {

/// Number of rows in one hash cycle.
pub const CYCLE_LENGTH: usize = 16;

/// Number of active permutation rounds at the start of each cycle; the
/// remaining rows of the cycle are padding.
pub const NUM_ROUNDS: usize = 14;

/// The exponent of the inverse-direction S-box: the multiplicative inverse
/// of 3 modulo MODULUS - 1, so that cubing undoes it.
pub const INV_ALPHA: u128 = 226854911280625642308916371969163307691;

/// The four permutation registers: two rate, two capacity.
#[derive(Clone, Copy, Debug, PartialEq, Eq, Structural)]
pub struct State4 {
    pub s0: Felt,
    pub s1: Felt,
    pub s2: Felt,
    pub s3: Felt,
}

/// All four registers canonical.
pub open spec fn st_wf(s: State4) -> bool {
    s.s0.wf() && s.s1.wf() && s.s2.wf() && s.s3.wf()
}

/// The mathematical value of a permutation state.
pub open spec fn st_view(s: State4) -> (int, int, int, int) {
    (s.s0@, s.s1@, s.s2@, s.s3@)
}

/// The round constants of one round: a pair for the rate registers and a
/// pair for the capacity registers.
#[verifier::opaque]
pub open spec fn spec_ark(r: int) -> (int, int, int, int) {
    if r == 0 {
        (180737557956607809563040062170683064909, 207249535935210261822551591421887281797, 251779362691224983757352539183668219379, 118922588640947027173804856885638657039)
    } else if r == 1 {
        (47430888282506645136123324668466615240, 308149156588198695441479821072500858680, 245592782900672961204191796610883078409, 223305932199757896846612519827356937532)
    } else if r == 2 {
        (91220897092545614561678961187368593199, 275348605229089373952666458058284423233, 122016940607707903823342485524591772173, 248610163446374818760492899181588278497)
    } else if r == 3 {
        (14448931242630762374438452488612181883, 17160083754057278634319142846211599083, 273236773876898687451830787851738055927, 200410254211467369308438700263463625510)
    } else if r == 4 {
        (212098347239110861327502008307293574357, 250572336158837689987830451066058337262, 316466497079067337530015365242641666489, 20579432532620846936408922486438414691)
    } else if r == 5 {
        (313338065431407040701589762749055630000, 205278212401316997471499451971860719125, 135665125174137633435300579784970848299, 186244402898008223272331861877578424118)
    } else if r == 6 {
        (288641878380469616318462256042878768619, 279055611739495822718904299382914324142, 166956677711131225328332390997716488845, 276180063807877200522403446171716674651)
    } else if r == 7 {
        (260453391617887387367662778577986486952, 201535977736126600363405236340875025239, 73099111206662423641188758753974480925, 291650031011858968562856140577736858897)
    } else if r == 8 {
        (4160927547328520992731670881583780503, 149789165023170691932443223652118678605, 81122216547432931202865335844951744880, 139988720544554515287651740071680641239)
    } else if r == 9 {
        (288440497968095220946984405343259565665, 204062900354904453756373493893869104788, 322618498067053800808920819279723221389, 235028609984840530935491088068195849103)
    } else if r == 10 {
        (77817570229488003156665942308363326326, 139013689060834945580321006981567482572, 273955289252118331831884633324577942944, 212820499142730037766386496967599701132)
    } else if r == 11 {
        (120914929148771917477577301733915933829, 96006949843590344341924522174173312163, 43894235841761379674142524809051023775, 226708262671547210837923227997074449871)
    } else if r == 12 {
        (11168615444735044741751002300043566110, 18719351796778314254835246899078124064, 87202101498350321959979296007877625417, 183517257210854920421863937463543806212)
    } else if r == 13 {
        (303648759261895648668527621080946756066, 246506639233703847138547629131585693322, 229866718725545289390092976574661470417, 265537473174414634796858500053317926836)
    } else {
        (0, 0, 0, 0)
    }
}

/// Adds the round constants of round `r` to each register.
pub open spec fn spec_add_ark(q: (int, int, int, int), r: int) -> (int, int, int, int) {
    let a = spec_ark(r);
    (f_add(q.0, a.0), f_add(q.1, a.1), f_add(q.2, a.2), f_add(q.3, a.3))
}

/// Subtracts the round constants of round `r` from each register, used by
/// the constraint system to run a round backwards.
pub open spec fn spec_sub_ark(q: (int, int, int, int), r: int) -> (int, int, int, int) {
    let a = spec_ark(r);
    (f_sub(q.0, a.0), f_sub(q.1, a.1), f_sub(q.2, a.2), f_sub(q.3, a.3))
}

/// The diffusion layer: multiplication by the fixed 4x4 matrix.
#[verifier::opaque]
pub open spec fn spec_mds(q: (int, int, int, int)) -> (int, int, int, int) {
    (
        f_add(f_add(f_mul(2, q.0), f_mul(3, q.1)), f_add(f_mul(1, q.2), f_mul(1, q.3))),
        f_add(f_add(f_mul(1, q.0), f_mul(2, q.1)), f_add(f_mul(3, q.2), f_mul(1, q.3))),
        f_add(f_add(f_mul(1, q.0), f_mul(1, q.1)), f_add(f_mul(2, q.2), f_mul(3, q.3))),
        f_add(f_add(f_mul(3, q.0), f_mul(1, q.1)), f_add(f_mul(1, q.2), f_mul(2, q.3))),
    )
}

/// Multiplication by the inverse of the diffusion matrix, used by the
/// constraint system to run the linear half of an odd round backwards.
#[verifier::opaque]
pub open spec fn spec_inv_mds(q: (int, int, int, int)) -> (int, int, int, int) {
    (
        f_add(f_add(f_mul(165280006790170110825067642434676124175, q.0), f_mul(301392953558545496210417465616174108790, q.1)), f_add(f_mul(29167060021794725439717819253178139560, q.2), f_mul(233336480174357803517742554025425116483, q.3))),
        f_add(f_add(f_mul(233336480174357803517742554025425116483, q.0), f_mul(165280006790170110825067642434676124175, q.1)), f_add(f_mul(301392953558545496210417465616174108790, q.2), f_mul(29167060021794725439717819253178139560, q.3))),
        f_add(f_add(f_mul(29167060021794725439717819253178139560, q.0), f_mul(233336480174357803517742554025425116483, q.1)), f_add(f_mul(165280006790170110825067642434676124175, q.2), f_mul(301392953558545496210417465616174108790, q.3))),
        f_add(f_add(f_mul(301392953558545496210417465616174108790, q.0), f_mul(29167060021794725439717819253178139560, q.1)), f_add(f_mul(233336480174357803517742554025425116483, q.2), f_mul(165280006790170110825067642434676124175, q.3))),
    )
}

/// The forward S-box applied to each register.
pub open spec fn spec_cube_state(q: (int, int, int, int)) -> (int, int, int, int) {
    (f_cube(q.0), f_cube(q.1), f_cube(q.2), f_cube(q.3))
}

/// The inverse-direction S-box candidate for each register.
pub open spec fn spec_inv_sbox(q: (int, int, int, int)) -> (int, int, int, int) {
    (
        f_pow(q.0, INV_ALPHA as nat),
        f_pow(q.1, INV_ALPHA as nat),
        f_pow(q.2, INV_ALPHA as nat),
        f_pow(q.3, INV_ALPHA as nat),
    )
}

/// One active round of the permutation. On an odd round the candidate state
/// must cube back to the S-box input; if it does not, the round has no
/// result and trace construction must abort.
#[verifier::opaque]
pub open spec fn spec_round(q: (int, int, int, int), r: int) -> Option<(int, int, int, int)> {
    let y = spec_add_ark(q, r);
    if r % 2 == 0 {
        Some(spec_add_ark(spec_mds(spec_cube_state(y)), r))
    } else {
        let c = spec_inv_sbox(y);
        if f_cube(c.0) == y.0 && f_cube(c.1) == y.1 && f_cube(c.2) == y.2 && f_cube(c.3) == y.3 {
            Some(spec_add_ark(spec_mds(c), r))
        } else {
            None
        }
    }
}

/// Rounds 0 through `k - 1` applied in order, if every odd round succeeds.
pub open spec fn spec_run_rounds(q: (int, int, int, int), k: nat) -> Option<(int, int, int, int)>
    decreases k,
{
    if k == 0 {
        Some(q)
    } else {
        match spec_run_rounds(q, (k - 1) as nat) {
            Some(p) => spec_round(p, k - 1),
            None => None,
        }
    }
}

/// The round constants of round `r`, as field elements.
pub fn ark_at(r: usize) -> (a: (Felt, Felt, Felt, Felt))
    ensures
        a.0.wf() && a.1.wf() && a.2.wf() && a.3.wf(),
        (a.0@, a.1@, a.2@, a.3@) == spec_ark(r as int),
{
    proof {
        reveal(spec_ark);
    }
    match r {
        0 => (
            Felt::from_u128(180737557956607809563040062170683064909),
            Felt::from_u128(207249535935210261822551591421887281797),
            Felt::from_u128(251779362691224983757352539183668219379),
            Felt::from_u128(118922588640947027173804856885638657039),
        ),
        1 => (
            Felt::from_u128(47430888282506645136123324668466615240),
            Felt::from_u128(308149156588198695441479821072500858680),
            Felt::from_u128(245592782900672961204191796610883078409),
            Felt::from_u128(223305932199757896846612519827356937532),
        ),
        2 => (
            Felt::from_u128(91220897092545614561678961187368593199),
            Felt::from_u128(275348605229089373952666458058284423233),
            Felt::from_u128(122016940607707903823342485524591772173),
            Felt::from_u128(248610163446374818760492899181588278497),
        ),
        3 => (
            Felt::from_u128(14448931242630762374438452488612181883),
            Felt::from_u128(17160083754057278634319142846211599083),
            Felt::from_u128(273236773876898687451830787851738055927),
            Felt::from_u128(200410254211467369308438700263463625510),
        ),
        4 => (
            Felt::from_u128(212098347239110861327502008307293574357),
            Felt::from_u128(250572336158837689987830451066058337262),
            Felt::from_u128(316466497079067337530015365242641666489),
            Felt::from_u128(20579432532620846936408922486438414691),
        ),
        5 => (
            Felt::from_u128(313338065431407040701589762749055630000),
            Felt::from_u128(205278212401316997471499451971860719125),
            Felt::from_u128(135665125174137633435300579784970848299),
            Felt::from_u128(186244402898008223272331861877578424118),
        ),
        6 => (
            Felt::from_u128(288641878380469616318462256042878768619),
            Felt::from_u128(279055611739495822718904299382914324142),
            Felt::from_u128(166956677711131225328332390997716488845),
            Felt::from_u128(276180063807877200522403446171716674651),
        ),
        7 => (
            Felt::from_u128(260453391617887387367662778577986486952),
            Felt::from_u128(201535977736126600363405236340875025239),
            Felt::from_u128(73099111206662423641188758753974480925),
            Felt::from_u128(291650031011858968562856140577736858897),
        ),
        8 => (
            Felt::from_u128(4160927547328520992731670881583780503),
            Felt::from_u128(149789165023170691932443223652118678605),
            Felt::from_u128(81122216547432931202865335844951744880),
            Felt::from_u128(139988720544554515287651740071680641239),
        ),
        9 => (
            Felt::from_u128(288440497968095220946984405343259565665),
            Felt::from_u128(204062900354904453756373493893869104788),
            Felt::from_u128(322618498067053800808920819279723221389),
            Felt::from_u128(235028609984840530935491088068195849103),
        ),
        10 => (
            Felt::from_u128(77817570229488003156665942308363326326),
            Felt::from_u128(139013689060834945580321006981567482572),
            Felt::from_u128(273955289252118331831884633324577942944),
            Felt::from_u128(212820499142730037766386496967599701132),
        ),
        11 => (
            Felt::from_u128(120914929148771917477577301733915933829),
            Felt::from_u128(96006949843590344341924522174173312163),
            Felt::from_u128(43894235841761379674142524809051023775),
            Felt::from_u128(226708262671547210837923227997074449871),
        ),
        12 => (
            Felt::from_u128(11168615444735044741751002300043566110),
            Felt::from_u128(18719351796778314254835246899078124064),
            Felt::from_u128(87202101498350321959979296007877625417),
            Felt::from_u128(183517257210854920421863937463543806212),
        ),
        13 => (
            Felt::from_u128(303648759261895648668527621080946756066),
            Felt::from_u128(246506639233703847138547629131585693322),
            Felt::from_u128(229866718725545289390092976574661470417),
            Felt::from_u128(265537473174414634796858500053317926836),
        ),
        _ => (Felt::zero(), Felt::zero(), Felt::zero(), Felt::zero()),
    }
}

/// Adds the round constants of round `r` to the state.
pub fn add_ark(s: State4, r: usize) -> (out: State4)
    requires
        st_wf(s),
    ensures
        st_wf(out),
        st_view(out) == spec_add_ark(st_view(s), r as int),
{
    let a = ark_at(r);
    State4 { s0: s.s0.add(a.0), s1: s.s1.add(a.1), s2: s.s2.add(a.2), s3: s.s3.add(a.3) }
}

/// Subtracts the round constants of round `r` from the state.
pub fn sub_ark(s: State4, r: usize) -> (out: State4)
    requires
        st_wf(s),
    ensures
        st_wf(out),
        st_view(out) == spec_sub_ark(st_view(s), r as int),
{
    let a = ark_at(r);
    State4 { s0: s.s0.sub(a.0), s1: s.s1.sub(a.1), s2: s.s2.sub(a.2), s3: s.s3.sub(a.3) }
}

/// Applies the diffusion matrix.
pub fn apply_mds(s: State4) -> (out: State4)
    requires
        st_wf(s),
    ensures
        st_wf(out),
        st_view(out) == spec_mds(st_view(s)),
{
    proof {
        reveal(spec_mds);
    }
    State4 {
        s0: Felt::from_u128(2).mul(s.s0).add(Felt::from_u128(3).mul(s.s1)).add(Felt::from_u128(1).mul(s.s2).add(Felt::from_u128(1).mul(s.s3))),
        s1: Felt::from_u128(1).mul(s.s0).add(Felt::from_u128(2).mul(s.s1)).add(Felt::from_u128(3).mul(s.s2).add(Felt::from_u128(1).mul(s.s3))),
        s2: Felt::from_u128(1).mul(s.s0).add(Felt::from_u128(1).mul(s.s1)).add(Felt::from_u128(2).mul(s.s2).add(Felt::from_u128(3).mul(s.s3))),
        s3: Felt::from_u128(3).mul(s.s0).add(Felt::from_u128(1).mul(s.s1)).add(Felt::from_u128(1).mul(s.s2).add(Felt::from_u128(2).mul(s.s3))),
    }
}

/// Applies the inverse of the diffusion matrix.
pub fn apply_inv_mds(s: State4) -> (out: State4)
    requires
        st_wf(s),
    ensures
        st_wf(out),
        st_view(out) == spec_inv_mds(st_view(s)),
{
    proof {
        reveal(spec_inv_mds);
    }
    State4 {
        s0: Felt::from_u128(165280006790170110825067642434676124175).mul(s.s0).add(Felt::from_u128(301392953558545496210417465616174108790).mul(s.s1)).add(Felt::from_u128(29167060021794725439717819253178139560).mul(s.s2).add(Felt::from_u128(233336480174357803517742554025425116483).mul(s.s3))),
        s1: Felt::from_u128(233336480174357803517742554025425116483).mul(s.s0).add(Felt::from_u128(165280006790170110825067642434676124175).mul(s.s1)).add(Felt::from_u128(301392953558545496210417465616174108790).mul(s.s2).add(Felt::from_u128(29167060021794725439717819253178139560).mul(s.s3))),
        s2: Felt::from_u128(29167060021794725439717819253178139560).mul(s.s0).add(Felt::from_u128(233336480174357803517742554025425116483).mul(s.s1)).add(Felt::from_u128(165280006790170110825067642434676124175).mul(s.s2).add(Felt::from_u128(301392953558545496210417465616174108790).mul(s.s3))),
        s3: Felt::from_u128(301392953558545496210417465616174108790).mul(s.s0).add(Felt::from_u128(29167060021794725439717819253178139560).mul(s.s1)).add(Felt::from_u128(233336480174357803517742554025425116483).mul(s.s2).add(Felt::from_u128(165280006790170110825067642434676124175).mul(s.s3))),
    }
}

/// Applies the forward S-box to each register.
pub fn apply_cube(s: State4) -> (out: State4)
    requires
        st_wf(s),
    ensures
        st_wf(out),
        st_view(out) == spec_cube_state(st_view(s)),
{
    State4 { s0: s.s0.cube(), s1: s.s1.cube(), s2: s.s2.cube(), s3: s.s3.cube() }
}

/// One active round of the permutation, with the odd-round candidate check.
#[verifier::rlimit(50)]
pub fn apply_round(s: State4, r: usize) -> (out: Option<State4>)
    requires
        st_wf(s),
        r < NUM_ROUNDS,
    ensures
        match out {
            Some(t) => st_wf(t) && spec_round(st_view(s), r as int) == Some(st_view(t)),
            None => spec_round(st_view(s), r as int) is None,
        },
{
    proof {
        reveal(spec_round);
    }
    let y = add_ark(s, r);
    if r % 2 == 0 {
        Some(add_ark(apply_mds(apply_cube(y)), r))
    } else {
        let c = State4 {
            s0: y.s0.exp(INV_ALPHA),
            s1: y.s1.exp(INV_ALPHA),
            s2: y.s2.exp(INV_ALPHA),
            s3: y.s3.exp(INV_ALPHA),
        };
        let ok = c.s0.cube().felt_eq(y.s0) && c.s1.cube().felt_eq(y.s1) && c.s2.cube().felt_eq(y.s2)
            && c.s3.cube().felt_eq(y.s3);
        if ok {
            Some(add_ark(apply_mds(c), r))
        } else {
            None
        }
    }
}

} // verus!
