//! The two Goldilocks Poseidon2 instances this crate ships: state widths 8
//! and 12, both with S-box degree 7, 8 full rounds and 22 partial rounds.
//! Each instance exists twice in the same literals: once as a specification
//! value that contracts can name, once as the executable builder, proved to
//! agree.

use vstd::prelude::*;

use crate::params::{ParamsView, Poseidon2Params};

verus! {

/// Diagonal of the internal linear layer of the width-8 Goldilocks
/// instance.
pub open spec fn goldilocks_8_diag() -> Seq<u64> {
    seq![0xa98811a1fed4e3a5u64, 0x1cc48b54f377e2a0u64, 0xe40cd4f6c5609a26u64, 0x11de79ebca97a4a3u64, 0x9177c73d8b7e929cu64, 0x2a6fe8085797e791u64, 0x3de6e93329f8d5adu64, 0x3f7af9125da962feu64]
}

/// Round-constant table of the width-8 Goldilocks instance: one row per
/// round; partial-round rows carry their constant in element 0 and zeros
/// elsewhere.
pub open spec fn goldilocks_8_rc() -> Seq<Seq<u64>> {
    seq![
        seq![0xdd5743e7f2a5a5d9u64, 0xcb3a864e58ada44bu64, 0xffa2449ed32f8cdcu64, 0x42025f65d6bd13eeu64, 0x7889175e25506323u64, 0x34b98bb03d24b737u64, 0xbdcc535ecc4faa2au64, 0x5b20ad869fc0d033u64],
        seq![0xf1dda5b9259dfcb4u64, 0x27515210be112d59u64, 0x4227d1718c766c3fu64, 0x26d333161a5bd794u64, 0x49b938957bf4b026u64, 0x4a56b5938b213669u64, 0x1120426b48c8353du64, 0x6b323c3f10a56cadu64],
        seq![0xce57d6245ddca6b2u64, 0xb1fc8d402bba1eb1u64, 0xb5c5096ca959bd04u64, 0x6db55cd306d31f7fu64, 0xc49d293a81cb9641u64, 0x1ce55a4fe979719fu64, 0xa92e60a9d178a4d1u64, 0x002cc64973bcfd8cu64],
        seq![0xcea721cce82fb11bu64, 0xe5b55eb8098ece81u64, 0x4e30525c6f1ddd66u64, 0x43c6702827070987u64, 0xaca68430a7b5762au64, 0x3674238634df9c93u64, 0x88cee1c825e33433u64, 0xde99ae8d74b57176u64],
        seq![0x488897d85ff51f56u64, 0x0000000000000000u64, 0x0000000000000000u64, 0x0000000000000000u64, 0x0000000000000000u64, 0x0000000000000000u64, 0x0000000000000000u64, 0x0000000000000000u64],
        seq![0x1140737ccb162218u64, 0x0000000000000000u64, 0x0000000000000000u64, 0x0000000000000000u64, 0x0000000000000000u64, 0x0000000000000000u64, 0x0000000000000000u64, 0x0000000000000000u64],
        seq![0xa7eeb9215866ed35u64, 0x0000000000000000u64, 0x0000000000000000u64, 0x0000000000000000u64, 0x0000000000000000u64, 0x0000000000000000u64, 0x0000000000000000u64, 0x0000000000000000u64],
        seq![0x9bd2976fee49fcc9u64, 0x0000000000000000u64, 0x0000000000000000u64, 0x0000000000000000u64, 0x0000000000000000u64, 0x0000000000000000u64, 0x0000000000000000u64, 0x0000000000000000u64],
        seq![0xc0c8f0de580a3fccu64, 0x0000000000000000u64, 0x0000000000000000u64, 0x0000000000000000u64, 0x0000000000000000u64, 0x0000000000000000u64, 0x0000000000000000u64, 0x0000000000000000u64],
        seq![0x4fb2dae6ee8fc793u64, 0x0000000000000000u64, 0x0000000000000000u64, 0x0000000000000000u64, 0x0000000000000000u64, 0x0000000000000000u64, 0x0000000000000000u64, 0x0000000000000000u64],
        seq![0x343a89f35f37395bu64, 0x0000000000000000u64, 0x0000000000000000u64, 0x0000000000000000u64, 0x0000000000000000u64, 0x0000000000000000u64, 0x0000000000000000u64, 0x0000000000000000u64],
        seq![0x223b525a77ca72c8u64, 0x0000000000000000u64, 0x0000000000000000u64, 0x0000000000000000u64, 0x0000000000000000u64, 0x0000000000000000u64, 0x0000000000000000u64, 0x0000000000000000u64],
        seq![0x56ccb62574aaa918u64, 0x0000000000000000u64, 0x0000000000000000u64, 0x0000000000000000u64, 0x0000000000000000u64, 0x0000000000000000u64, 0x0000000000000000u64, 0x0000000000000000u64],
        seq![0xc4d507d8027af9edu64, 0x0000000000000000u64, 0x0000000000000000u64, 0x0000000000000000u64, 0x0000000000000000u64, 0x0000000000000000u64, 0x0000000000000000u64, 0x0000000000000000u64],
        seq![0xa080673cf0b7e95cu64, 0x0000000000000000u64, 0x0000000000000000u64, 0x0000000000000000u64, 0x0000000000000000u64, 0x0000000000000000u64, 0x0000000000000000u64, 0x0000000000000000u64],
        seq![0xf0184884eb70dcf8u64, 0x0000000000000000u64, 0x0000000000000000u64, 0x0000000000000000u64, 0x0000000000000000u64, 0x0000000000000000u64, 0x0000000000000000u64, 0x0000000000000000u64],
        seq![0x044f10b0cb3d5c69u64, 0x0000000000000000u64, 0x0000000000000000u64, 0x0000000000000000u64, 0x0000000000000000u64, 0x0000000000000000u64, 0x0000000000000000u64, 0x0000000000000000u64],
        seq![0xe9e3f7993938f186u64, 0x0000000000000000u64, 0x0000000000000000u64, 0x0000000000000000u64, 0x0000000000000000u64, 0x0000000000000000u64, 0x0000000000000000u64, 0x0000000000000000u64],
        seq![0x1b761c80e772f459u64, 0x0000000000000000u64, 0x0000000000000000u64, 0x0000000000000000u64, 0x0000000000000000u64, 0x0000000000000000u64, 0x0000000000000000u64, 0x0000000000000000u64],
        seq![0x606cec607a1b5facu64, 0x0000000000000000u64, 0x0000000000000000u64, 0x0000000000000000u64, 0x0000000000000000u64, 0x0000000000000000u64, 0x0000000000000000u64, 0x0000000000000000u64],
        seq![0x14a0c2e1d45f03cdu64, 0x0000000000000000u64, 0x0000000000000000u64, 0x0000000000000000u64, 0x0000000000000000u64, 0x0000000000000000u64, 0x0000000000000000u64, 0x0000000000000000u64],
        seq![0x4eace8855398574fu64, 0x0000000000000000u64, 0x0000000000000000u64, 0x0000000000000000u64, 0x0000000000000000u64, 0x0000000000000000u64, 0x0000000000000000u64, 0x0000000000000000u64],
        seq![0xf905ca7103eff3e6u64, 0x0000000000000000u64, 0x0000000000000000u64, 0x0000000000000000u64, 0x0000000000000000u64, 0x0000000000000000u64, 0x0000000000000000u64, 0x0000000000000000u64],
        seq![0xf8c8f8d20862c059u64, 0x0000000000000000u64, 0x0000000000000000u64, 0x0000000000000000u64, 0x0000000000000000u64, 0x0000000000000000u64, 0x0000000000000000u64, 0x0000000000000000u64],
        seq![0xb524fe8bdd678e5au64, 0x0000000000000000u64, 0x0000000000000000u64, 0x0000000000000000u64, 0x0000000000000000u64, 0x0000000000000000u64, 0x0000000000000000u64, 0x0000000000000000u64],
        seq![0xfbb7865901a1ec41u64, 0x0000000000000000u64, 0x0000000000000000u64, 0x0000000000000000u64, 0x0000000000000000u64, 0x0000000000000000u64, 0x0000000000000000u64, 0x0000000000000000u64],
        seq![0x014ef1197d341346u64, 0x9725e20825d07394u64, 0xfdb25aef2c5bae3bu64, 0xbe5402dc598c971eu64, 0x93a5711f04cdca3du64, 0xc45a9a5b2f8fb97bu64, 0xfe8946a924933545u64, 0x2af997a27369091cu64],
        seq![0xaa62c88e0b294011u64, 0x058eb9d810ce9f74u64, 0xb3cb23eced349ae4u64, 0xa3648177a77b4a84u64, 0x43153d905992d95du64, 0xf4e2a97cda44aa4bu64, 0x5baa2702b908682fu64, 0x082923bdf4f750d1u64],
        seq![0x98ae09a325893803u64, 0xf8a6475077968838u64, 0xceb0735bf00b2c5fu64, 0x0a1a5d953888e072u64, 0x2fcb190489f94475u64, 0xb5be06270dec69fcu64, 0x739cb934b09acf8bu64, 0x537750b75ec7f25bu64],
        seq![0xe9dd318bae1f3961u64, 0xf7462137299efe1au64, 0xb1f6b8eee9adb940u64, 0xbdebcc8a809dfe6bu64, 0x40fc1f791b178113u64, 0x3ac1c3362d014864u64, 0x9a016184bdb8aebau64, 0x95f2394459fbc25eu64],
    ]
}

/// The width-8 Goldilocks parameter view: S-box degree 7, 8 full
/// rounds split around 22 partial rounds.
pub open spec fn goldilocks_8_view() -> ParamsView {
    ParamsView {
        t: 8,
        d: 7,
        rounds_f_beginning: 4,
        rounds_p: 22,
        diag: goldilocks_8_diag(),
        rc: goldilocks_8_rc(),
    }
}

/// Builds the width-8 Goldilocks parameter set.
#[verifier::rlimit(100)]
pub fn goldilocks_8_params() -> (r: Poseidon2Params)
    ensures
        r.wf(),
        r@ == goldilocks_8_view(),
        r.t == 8,
        r.d == 7,
        r.rounds_f_beginning == 4,
        r.rounds_f_end == 4,
        r.rounds_p == 22,
        r.rounds == 30,
{
    let mat_internal_diag_m_1: Vec<u64> = vec![0xa98811a1fed4e3a5u64, 0x1cc48b54f377e2a0u64, 0xe40cd4f6c5609a26u64, 0x11de79ebca97a4a3u64, 0x9177c73d8b7e929cu64, 0x2a6fe8085797e791u64, 0x3de6e93329f8d5adu64, 0x3f7af9125da962feu64];
    let mut rc: Vec<Vec<u64>> = Vec::new();
    rc.push(vec![0xdd5743e7f2a5a5d9u64, 0xcb3a864e58ada44bu64, 0xffa2449ed32f8cdcu64, 0x42025f65d6bd13eeu64, 0x7889175e25506323u64, 0x34b98bb03d24b737u64, 0xbdcc535ecc4faa2au64, 0x5b20ad869fc0d033u64]);
    rc.push(vec![0xf1dda5b9259dfcb4u64, 0x27515210be112d59u64, 0x4227d1718c766c3fu64, 0x26d333161a5bd794u64, 0x49b938957bf4b026u64, 0x4a56b5938b213669u64, 0x1120426b48c8353du64, 0x6b323c3f10a56cadu64]);
    rc.push(vec![0xce57d6245ddca6b2u64, 0xb1fc8d402bba1eb1u64, 0xb5c5096ca959bd04u64, 0x6db55cd306d31f7fu64, 0xc49d293a81cb9641u64, 0x1ce55a4fe979719fu64, 0xa92e60a9d178a4d1u64, 0x002cc64973bcfd8cu64]);
    rc.push(vec![0xcea721cce82fb11bu64, 0xe5b55eb8098ece81u64, 0x4e30525c6f1ddd66u64, 0x43c6702827070987u64, 0xaca68430a7b5762au64, 0x3674238634df9c93u64, 0x88cee1c825e33433u64, 0xde99ae8d74b57176u64]);
    rc.push(vec![0x488897d85ff51f56u64, 0x0000000000000000u64, 0x0000000000000000u64, 0x0000000000000000u64, 0x0000000000000000u64, 0x0000000000000000u64, 0x0000000000000000u64, 0x0000000000000000u64]);
    rc.push(vec![0x1140737ccb162218u64, 0x0000000000000000u64, 0x0000000000000000u64, 0x0000000000000000u64, 0x0000000000000000u64, 0x0000000000000000u64, 0x0000000000000000u64, 0x0000000000000000u64]);
    rc.push(vec![0xa7eeb9215866ed35u64, 0x0000000000000000u64, 0x0000000000000000u64, 0x0000000000000000u64, 0x0000000000000000u64, 0x0000000000000000u64, 0x0000000000000000u64, 0x0000000000000000u64]);
    rc.push(vec![0x9bd2976fee49fcc9u64, 0x0000000000000000u64, 0x0000000000000000u64, 0x0000000000000000u64, 0x0000000000000000u64, 0x0000000000000000u64, 0x0000000000000000u64, 0x0000000000000000u64]);
    rc.push(vec![0xc0c8f0de580a3fccu64, 0x0000000000000000u64, 0x0000000000000000u64, 0x0000000000000000u64, 0x0000000000000000u64, 0x0000000000000000u64, 0x0000000000000000u64, 0x0000000000000000u64]);
    rc.push(vec![0x4fb2dae6ee8fc793u64, 0x0000000000000000u64, 0x0000000000000000u64, 0x0000000000000000u64, 0x0000000000000000u64, 0x0000000000000000u64, 0x0000000000000000u64, 0x0000000000000000u64]);
    rc.push(vec![0x343a89f35f37395bu64, 0x0000000000000000u64, 0x0000000000000000u64, 0x0000000000000000u64, 0x0000000000000000u64, 0x0000000000000000u64, 0x0000000000000000u64, 0x0000000000000000u64]);
    rc.push(vec![0x223b525a77ca72c8u64, 0x0000000000000000u64, 0x0000000000000000u64, 0x0000000000000000u64, 0x0000000000000000u64, 0x0000000000000000u64, 0x0000000000000000u64, 0x0000000000000000u64]);
    rc.push(vec![0x56ccb62574aaa918u64, 0x0000000000000000u64, 0x0000000000000000u64, 0x0000000000000000u64, 0x0000000000000000u64, 0x0000000000000000u64, 0x0000000000000000u64, 0x0000000000000000u64]);
    rc.push(vec![0xc4d507d8027af9edu64, 0x0000000000000000u64, 0x0000000000000000u64, 0x0000000000000000u64, 0x0000000000000000u64, 0x0000000000000000u64, 0x0000000000000000u64, 0x0000000000000000u64]);
    rc.push(vec![0xa080673cf0b7e95cu64, 0x0000000000000000u64, 0x0000000000000000u64, 0x0000000000000000u64, 0x0000000000000000u64, 0x0000000000000000u64, 0x0000000000000000u64, 0x0000000000000000u64]);
    rc.push(vec![0xf0184884eb70dcf8u64, 0x0000000000000000u64, 0x0000000000000000u64, 0x0000000000000000u64, 0x0000000000000000u64, 0x0000000000000000u64, 0x0000000000000000u64, 0x0000000000000000u64]);
    rc.push(vec![0x044f10b0cb3d5c69u64, 0x0000000000000000u64, 0x0000000000000000u64, 0x0000000000000000u64, 0x0000000000000000u64, 0x0000000000000000u64, 0x0000000000000000u64, 0x0000000000000000u64]);
    rc.push(vec![0xe9e3f7993938f186u64, 0x0000000000000000u64, 0x0000000000000000u64, 0x0000000000000000u64, 0x0000000000000000u64, 0x0000000000000000u64, 0x0000000000000000u64, 0x0000000000000000u64]);
    rc.push(vec![0x1b761c80e772f459u64, 0x0000000000000000u64, 0x0000000000000000u64, 0x0000000000000000u64, 0x0000000000000000u64, 0x0000000000000000u64, 0x0000000000000000u64, 0x0000000000000000u64]);
    rc.push(vec![0x606cec607a1b5facu64, 0x0000000000000000u64, 0x0000000000000000u64, 0x0000000000000000u64, 0x0000000000000000u64, 0x0000000000000000u64, 0x0000000000000000u64, 0x0000000000000000u64]);
    rc.push(vec![0x14a0c2e1d45f03cdu64, 0x0000000000000000u64, 0x0000000000000000u64, 0x0000000000000000u64, 0x0000000000000000u64, 0x0000000000000000u64, 0x0000000000000000u64, 0x0000000000000000u64]);
    rc.push(vec![0x4eace8855398574fu64, 0x0000000000000000u64, 0x0000000000000000u64, 0x0000000000000000u64, 0x0000000000000000u64, 0x0000000000000000u64, 0x0000000000000000u64, 0x0000000000000000u64]);
    rc.push(vec![0xf905ca7103eff3e6u64, 0x0000000000000000u64, 0x0000000000000000u64, 0x0000000000000000u64, 0x0000000000000000u64, 0x0000000000000000u64, 0x0000000000000000u64, 0x0000000000000000u64]);
    rc.push(vec![0xf8c8f8d20862c059u64, 0x0000000000000000u64, 0x0000000000000000u64, 0x0000000000000000u64, 0x0000000000000000u64, 0x0000000000000000u64, 0x0000000000000000u64, 0x0000000000000000u64]);
    rc.push(vec![0xb524fe8bdd678e5au64, 0x0000000000000000u64, 0x0000000000000000u64, 0x0000000000000000u64, 0x0000000000000000u64, 0x0000000000000000u64, 0x0000000000000000u64, 0x0000000000000000u64]);
    rc.push(vec![0xfbb7865901a1ec41u64, 0x0000000000000000u64, 0x0000000000000000u64, 0x0000000000000000u64, 0x0000000000000000u64, 0x0000000000000000u64, 0x0000000000000000u64, 0x0000000000000000u64]);
    rc.push(vec![0x014ef1197d341346u64, 0x9725e20825d07394u64, 0xfdb25aef2c5bae3bu64, 0xbe5402dc598c971eu64, 0x93a5711f04cdca3du64, 0xc45a9a5b2f8fb97bu64, 0xfe8946a924933545u64, 0x2af997a27369091cu64]);
    rc.push(vec![0xaa62c88e0b294011u64, 0x058eb9d810ce9f74u64, 0xb3cb23eced349ae4u64, 0xa3648177a77b4a84u64, 0x43153d905992d95du64, 0xf4e2a97cda44aa4bu64, 0x5baa2702b908682fu64, 0x082923bdf4f750d1u64]);
    rc.push(vec![0x98ae09a325893803u64, 0xf8a6475077968838u64, 0xceb0735bf00b2c5fu64, 0x0a1a5d953888e072u64, 0x2fcb190489f94475u64, 0xb5be06270dec69fcu64, 0x739cb934b09acf8bu64, 0x537750b75ec7f25bu64]);
    rc.push(vec![0xe9dd318bae1f3961u64, 0xf7462137299efe1au64, 0xb1f6b8eee9adb940u64, 0xbdebcc8a809dfe6bu64, 0x40fc1f791b178113u64, 0x3ac1c3362d014864u64, 0x9a016184bdb8aebau64, 0x95f2394459fbc25eu64]);
    let r = Poseidon2Params {
        t: 8,
        d: 7,
        rounds_f_beginning: 4,
        rounds_f_end: 4,
        rounds_p: 22,
        rounds: 30,
        mat_internal_diag_m_1,
        round_constants: rc,
    };
    proof {
        assert(r@.diag =~= goldilocks_8_diag());
        assert(r@.rc =~~= goldilocks_8_rc());
        assert(r@ == goldilocks_8_view());
        assert(r@.wf());
    }
    r
}

/// Diagonal of the internal linear layer of the width-12 Goldilocks
/// instance.
pub open spec fn goldilocks_12_diag() -> Seq<u64> {
    seq![0xc3b6c08e23ba9300u64, 0xd84b5de94a324fb6u64, 0x0d0c371c5b35b84fu64, 0x7964f570e7188037u64, 0x5daf18bbd996604bu64, 0x6743bc47b9595257u64, 0x5528b9362c59bb70u64, 0xac45e25b7127b68bu64, 0xa2077d7dfbb606b5u64, 0xf3faac6faee378aeu64, 0x0c6388b51545e883u64, 0xd27dbb6944917b60u64]
}

/// Round-constant table of the width-12 Goldilocks instance: one row per
/// round; partial-round rows carry their constant in element 0 and zeros
/// elsewhere.
pub open spec fn goldilocks_12_rc() -> Seq<Seq<u64>> {
    seq![
        seq![0x13dcf33aba214f46u64, 0x30b3b654a1da6d83u64, 0x1fc634ada6159b56u64, 0x937459964dc03466u64, 0xedd2ef2ca7949924u64, 0xede9affde0e22f68u64, 0x8515b9d6bac9282du64, 0x6b5c07b4e9e900d8u64, 0x1ec66368838c8a08u64, 0x9042367d80d1fbabu64, 0x400283564a3c3799u64, 0x4a00be0466bca75eu64],
        seq![0x7913beee58e3817fu64, 0xf545e88532237d90u64, 0x22f8cb8736042005u64, 0x6f04990e247a2623u64, 0xfe22e87ba37c38cdu64, 0xd20e32c85ffe2815u64, 0x117227674048fe73u64, 0x4e9fb7ea98a6b145u64, 0xe0866c232b8af08bu64, 0x00bbc77916884964u64, 0x7031c0fb990d7116u64, 0x240a9e87cf35108fu64],
        seq![0x2e6363a5a12244b3u64, 0x5e1c3787d1b5011cu64, 0x4132660e2a196e8bu64, 0x3a013b648d3d4327u64, 0xf79839f49888ea43u64, 0xfe85658ebafe1439u64, 0xb6889825a14240bdu64, 0x578453605541382bu64, 0x4508cda8f6b63ce9u64, 0x9c3ef35848684c91u64, 0x0812bde23c87178cu64, 0xfe49638f7f722c14u64],
        seq![0x8e3f688ce885cbf5u64, 0xb8e110acf746a87du64, 0xb4b2e8973a6dabefu64, 0x9e714c5da3d462ecu64, 0x6438f9033d3d0c15u64, 0x24312f7cf1a27199u64, 0x23f843bb47acbf71u64, 0x9183f11a34be9f01u64, 0x839062fbb9d45dbfu64, 0x24b56e7e6c2e43fau64, 0xe1683da61c962a72u64, 0xa95c63971a19bfa7u64],
        seq![0x4adf842aa75d4316u64, 0x0000000000000000u64, 0x0000000000000000u64, 0x0000000000000000u64, 0x0000000000000000u64, 0x0000000000000000u64, 0x0000000000000000u64, 0x0000000000000000u64, 0x0000000000000000u64, 0x0000000000000000u64, 0x0000000000000000u64, 0x0000000000000000u64],
        seq![0xf8fbb871aa4ab4ebu64, 0x0000000000000000u64, 0x0000000000000000u64, 0x0000000000000000u64, 0x0000000000000000u64, 0x0000000000000000u64, 0x0000000000000000u64, 0x0000000000000000u64, 0x0000000000000000u64, 0x0000000000000000u64, 0x0000000000000000u64, 0x0000000000000000u64],
        seq![0x68e85b6eb2dd6aebu64, 0x0000000000000000u64, 0x0000000000000000u64, 0x0000000000000000u64, 0x0000000000000000u64, 0x0000000000000000u64, 0x0000000000000000u64, 0x0000000000000000u64, 0x0000000000000000u64, 0x0000000000000000u64, 0x0000000000000000u64, 0x0000000000000000u64],
        seq![0x07a0b06b2d270380u64, 0x0000000000000000u64, 0x0000000000000000u64, 0x0000000000000000u64, 0x0000000000000000u64, 0x0000000000000000u64, 0x0000000000000000u64, 0x0000000000000000u64, 0x0000000000000000u64, 0x0000000000000000u64, 0x0000000000000000u64, 0x0000000000000000u64],
        seq![0xd94e0228bd282de4u64, 0x0000000000000000u64, 0x0000000000000000u64, 0x0000000000000000u64, 0x0000000000000000u64, 0x0000000000000000u64, 0x0000000000000000u64, 0x0000000000000000u64, 0x0000000000000000u64, 0x0000000000000000u64, 0x0000000000000000u64, 0x0000000000000000u64],
        seq![0x8bdd91d3250c5278u64, 0x0000000000000000u64, 0x0000000000000000u64, 0x0000000000000000u64, 0x0000000000000000u64, 0x0000000000000000u64, 0x0000000000000000u64, 0x0000000000000000u64, 0x0000000000000000u64, 0x0000000000000000u64, 0x0000000000000000u64, 0x0000000000000000u64],
        seq![0x209c68b88bba778fu64, 0x0000000000000000u64, 0x0000000000000000u64, 0x0000000000000000u64, 0x0000000000000000u64, 0x0000000000000000u64, 0x0000000000000000u64, 0x0000000000000000u64, 0x0000000000000000u64, 0x0000000000000000u64, 0x0000000000000000u64, 0x0000000000000000u64],
        seq![0xb5e18cdab77f3877u64, 0x0000000000000000u64, 0x0000000000000000u64, 0x0000000000000000u64, 0x0000000000000000u64, 0x0000000000000000u64, 0x0000000000000000u64, 0x0000000000000000u64, 0x0000000000000000u64, 0x0000000000000000u64, 0x0000000000000000u64, 0x0000000000000000u64],
        seq![0xb296a3e808da93fau64, 0x0000000000000000u64, 0x0000000000000000u64, 0x0000000000000000u64, 0x0000000000000000u64, 0x0000000000000000u64, 0x0000000000000000u64, 0x0000000000000000u64, 0x0000000000000000u64, 0x0000000000000000u64, 0x0000000000000000u64, 0x0000000000000000u64],
        seq![0x8370ecbda11a327eu64, 0x0000000000000000u64, 0x0000000000000000u64, 0x0000000000000000u64, 0x0000000000000000u64, 0x0000000000000000u64, 0x0000000000000000u64, 0x0000000000000000u64, 0x0000000000000000u64, 0x0000000000000000u64, 0x0000000000000000u64, 0x0000000000000000u64],
        seq![0x3f9075283775dad8u64, 0x0000000000000000u64, 0x0000000000000000u64, 0x0000000000000000u64, 0x0000000000000000u64, 0x0000000000000000u64, 0x0000000000000000u64, 0x0000000000000000u64, 0x0000000000000000u64, 0x0000000000000000u64, 0x0000000000000000u64, 0x0000000000000000u64],
        seq![0xb78095bb23c6aa84u64, 0x0000000000000000u64, 0x0000000000000000u64, 0x0000000000000000u64, 0x0000000000000000u64, 0x0000000000000000u64, 0x0000000000000000u64, 0x0000000000000000u64, 0x0000000000000000u64, 0x0000000000000000u64, 0x0000000000000000u64, 0x0000000000000000u64],
        seq![0x3f36b9fe72ad4e5fu64, 0x0000000000000000u64, 0x0000000000000000u64, 0x0000000000000000u64, 0x0000000000000000u64, 0x0000000000000000u64, 0x0000000000000000u64, 0x0000000000000000u64, 0x0000000000000000u64, 0x0000000000000000u64, 0x0000000000000000u64, 0x0000000000000000u64],
        seq![0x69bc96780b10b553u64, 0x0000000000000000u64, 0x0000000000000000u64, 0x0000000000000000u64, 0x0000000000000000u64, 0x0000000000000000u64, 0x0000000000000000u64, 0x0000000000000000u64, 0x0000000000000000u64, 0x0000000000000000u64, 0x0000000000000000u64, 0x0000000000000000u64],
        seq![0x3f1d341f2eb7b881u64, 0x0000000000000000u64, 0x0000000000000000u64, 0x0000000000000000u64, 0x0000000000000000u64, 0x0000000000000000u64, 0x0000000000000000u64, 0x0000000000000000u64, 0x0000000000000000u64, 0x0000000000000000u64, 0x0000000000000000u64, 0x0000000000000000u64],
        seq![0x4e939e9815838818u64, 0x0000000000000000u64, 0x0000000000000000u64, 0x0000000000000000u64, 0x0000000000000000u64, 0x0000000000000000u64, 0x0000000000000000u64, 0x0000000000000000u64, 0x0000000000000000u64, 0x0000000000000000u64, 0x0000000000000000u64, 0x0000000000000000u64],
        seq![0xda366b3ae2a31604u64, 0x0000000000000000u64, 0x0000000000000000u64, 0x0000000000000000u64, 0x0000000000000000u64, 0x0000000000000000u64, 0x0000000000000000u64, 0x0000000000000000u64, 0x0000000000000000u64, 0x0000000000000000u64, 0x0000000000000000u64, 0x0000000000000000u64],
        seq![0xbc89db1e7287d509u64, 0x0000000000000000u64, 0x0000000000000000u64, 0x0000000000000000u64, 0x0000000000000000u64, 0x0000000000000000u64, 0x0000000000000000u64, 0x0000000000000000u64, 0x0000000000000000u64, 0x0000000000000000u64, 0x0000000000000000u64, 0x0000000000000000u64],
        seq![0x6102f411f9ef5659u64, 0x0000000000000000u64, 0x0000000000000000u64, 0x0000000000000000u64, 0x0000000000000000u64, 0x0000000000000000u64, 0x0000000000000000u64, 0x0000000000000000u64, 0x0000000000000000u64, 0x0000000000000000u64, 0x0000000000000000u64, 0x0000000000000000u64],
        seq![0x58725c5e7ac1f0abu64, 0x0000000000000000u64, 0x0000000000000000u64, 0x0000000000000000u64, 0x0000000000000000u64, 0x0000000000000000u64, 0x0000000000000000u64, 0x0000000000000000u64, 0x0000000000000000u64, 0x0000000000000000u64, 0x0000000000000000u64, 0x0000000000000000u64],
        seq![0x0df5856c798883e7u64, 0x0000000000000000u64, 0x0000000000000000u64, 0x0000000000000000u64, 0x0000000000000000u64, 0x0000000000000000u64, 0x0000000000000000u64, 0x0000000000000000u64, 0x0000000000000000u64, 0x0000000000000000u64, 0x0000000000000000u64, 0x0000000000000000u64],
        seq![0xf7bb62a8da4c961bu64, 0x0000000000000000u64, 0x0000000000000000u64, 0x0000000000000000u64, 0x0000000000000000u64, 0x0000000000000000u64, 0x0000000000000000u64, 0x0000000000000000u64, 0x0000000000000000u64, 0x0000000000000000u64, 0x0000000000000000u64, 0x0000000000000000u64],
        seq![0xc68be7c94882a24du64, 0xaf996d5d5cdaedd9u64, 0x9717f025e7daf6a5u64, 0x6436679e6e7216f4u64, 0x8a223d99047af267u64, 0xbb512e35a133ba9au64, 0xfbbf44097671aa03u64, 0xf04058ebf6811e61u64, 0x5cca84703fac7ffbu64, 0x9b55c7945de6469fu64, 0x8e05bf09808e934fu64, 0x2ea900de876307d7u64],
        seq![0x7748fff2b38dfb89u64, 0x6b99a676dd3b5d81u64, 0xac4bb7c627cf7c13u64, 0xadb6ebe5e9e2f5bau64, 0x2d33378cafa24ae3u64, 0x1e5b73807543f8c2u64, 0x09208814bfebb10fu64, 0x782e64b6bb5b93ddu64, 0xadd5a48eac90b50fu64, 0xadd4c54c736ea4b1u64, 0xd58dbb86ed817fd8u64, 0x6d5ed1a533f34dddu64],
        seq![0x28686aa3e36b7cb9u64, 0x591abd3476689f36u64, 0x047d766678f13875u64, 0xa2a11112625f5b49u64, 0x21fd10a3f8304958u64, 0xf9b40711443b0280u64, 0xd2697eb8b2bde88eu64, 0x3493790b51731b3fu64, 0x11caf9dd73764023u64, 0x7acfb8f72878164eu64, 0x744ec4db23cefc26u64, 0x1e00e58f422c6340u64],
        seq![0x21dd28d906a62ddau64, 0xf32a46ab5f465b5fu64, 0xbfce13201f3f7e6bu64, 0xf30d2e7adb5304e2u64, 0xecdf4ee4abad48e9u64, 0xf94e82182d395019u64, 0x4ee52e3744d887c5u64, 0xa1341c7cac0083b2u64, 0x2302fb26c30c834au64, 0xaea3c587273bf7d3u64, 0xf798e24961823ec7u64, 0x962deba3e9a2cd94u64],
    ]
}

/// The width-12 Goldilocks parameter view: S-box degree 7, 8 full
/// rounds split around 22 partial rounds.
pub open spec fn goldilocks_12_view() -> ParamsView {
    ParamsView {
        t: 12,
        d: 7,
        rounds_f_beginning: 4,
        rounds_p: 22,
        diag: goldilocks_12_diag(),
        rc: goldilocks_12_rc(),
    }
}

/// Builds the width-12 Goldilocks parameter set.
#[verifier::rlimit(100)]
pub fn goldilocks_12_params() -> (r: Poseidon2Params)
    ensures
        r.wf(),
        r@ == goldilocks_12_view(),
        r.t == 12,
        r.d == 7,
        r.rounds_f_beginning == 4,
        r.rounds_f_end == 4,
        r.rounds_p == 22,
        r.rounds == 30,
{
    let mat_internal_diag_m_1: Vec<u64> = vec![0xc3b6c08e23ba9300u64, 0xd84b5de94a324fb6u64, 0x0d0c371c5b35b84fu64, 0x7964f570e7188037u64, 0x5daf18bbd996604bu64, 0x6743bc47b9595257u64, 0x5528b9362c59bb70u64, 0xac45e25b7127b68bu64, 0xa2077d7dfbb606b5u64, 0xf3faac6faee378aeu64, 0x0c6388b51545e883u64, 0xd27dbb6944917b60u64];
    let mut rc: Vec<Vec<u64>> = Vec::new();
    rc.push(vec![0x13dcf33aba214f46u64, 0x30b3b654a1da6d83u64, 0x1fc634ada6159b56u64, 0x937459964dc03466u64, 0xedd2ef2ca7949924u64, 0xede9affde0e22f68u64, 0x8515b9d6bac9282du64, 0x6b5c07b4e9e900d8u64, 0x1ec66368838c8a08u64, 0x9042367d80d1fbabu64, 0x400283564a3c3799u64, 0x4a00be0466bca75eu64]);
    rc.push(vec![0x7913beee58e3817fu64, 0xf545e88532237d90u64, 0x22f8cb8736042005u64, 0x6f04990e247a2623u64, 0xfe22e87ba37c38cdu64, 0xd20e32c85ffe2815u64, 0x117227674048fe73u64, 0x4e9fb7ea98a6b145u64, 0xe0866c232b8af08bu64, 0x00bbc77916884964u64, 0x7031c0fb990d7116u64, 0x240a9e87cf35108fu64]);
    rc.push(vec![0x2e6363a5a12244b3u64, 0x5e1c3787d1b5011cu64, 0x4132660e2a196e8bu64, 0x3a013b648d3d4327u64, 0xf79839f49888ea43u64, 0xfe85658ebafe1439u64, 0xb6889825a14240bdu64, 0x578453605541382bu64, 0x4508cda8f6b63ce9u64, 0x9c3ef35848684c91u64, 0x0812bde23c87178cu64, 0xfe49638f7f722c14u64]);
    rc.push(vec![0x8e3f688ce885cbf5u64, 0xb8e110acf746a87du64, 0xb4b2e8973a6dabefu64, 0x9e714c5da3d462ecu64, 0x6438f9033d3d0c15u64, 0x24312f7cf1a27199u64, 0x23f843bb47acbf71u64, 0x9183f11a34be9f01u64, 0x839062fbb9d45dbfu64, 0x24b56e7e6c2e43fau64, 0xe1683da61c962a72u64, 0xa95c63971a19bfa7u64]);
    rc.push(vec![0x4adf842aa75d4316u64, 0x0000000000000000u64, 0x0000000000000000u64, 0x0000000000000000u64, 0x0000000000000000u64, 0x0000000000000000u64, 0x0000000000000000u64, 0x0000000000000000u64, 0x0000000000000000u64, 0x0000000000000000u64, 0x0000000000000000u64, 0x0000000000000000u64]);
    rc.push(vec![0xf8fbb871aa4ab4ebu64, 0x0000000000000000u64, 0x0000000000000000u64, 0x0000000000000000u64, 0x0000000000000000u64, 0x0000000000000000u64, 0x0000000000000000u64, 0x0000000000000000u64, 0x0000000000000000u64, 0x0000000000000000u64, 0x0000000000000000u64, 0x0000000000000000u64]);
    rc.push(vec![0x68e85b6eb2dd6aebu64, 0x0000000000000000u64, 0x0000000000000000u64, 0x0000000000000000u64, 0x0000000000000000u64, 0x0000000000000000u64, 0x0000000000000000u64, 0x0000000000000000u64, 0x0000000000000000u64, 0x0000000000000000u64, 0x0000000000000000u64, 0x0000000000000000u64]);
    rc.push(vec![0x07a0b06b2d270380u64, 0x0000000000000000u64, 0x0000000000000000u64, 0x0000000000000000u64, 0x0000000000000000u64, 0x0000000000000000u64, 0x0000000000000000u64, 0x0000000000000000u64, 0x0000000000000000u64, 0x0000000000000000u64, 0x0000000000000000u64, 0x0000000000000000u64]);
    rc.push(vec![0xd94e0228bd282de4u64, 0x0000000000000000u64, 0x0000000000000000u64, 0x0000000000000000u64, 0x0000000000000000u64, 0x0000000000000000u64, 0x0000000000000000u64, 0x0000000000000000u64, 0x0000000000000000u64, 0x0000000000000000u64, 0x0000000000000000u64, 0x0000000000000000u64]);
    rc.push(vec![0x8bdd91d3250c5278u64, 0x0000000000000000u64, 0x0000000000000000u64, 0x0000000000000000u64, 0x0000000000000000u64, 0x0000000000000000u64, 0x0000000000000000u64, 0x0000000000000000u64, 0x0000000000000000u64, 0x0000000000000000u64, 0x0000000000000000u64, 0x0000000000000000u64]);
    rc.push(vec![0x209c68b88bba778fu64, 0x0000000000000000u64, 0x0000000000000000u64, 0x0000000000000000u64, 0x0000000000000000u64, 0x0000000000000000u64, 0x0000000000000000u64, 0x0000000000000000u64, 0x0000000000000000u64, 0x0000000000000000u64, 0x0000000000000000u64, 0x0000000000000000u64]);
    rc.push(vec![0xb5e18cdab77f3877u64, 0x0000000000000000u64, 0x0000000000000000u64, 0x0000000000000000u64, 0x0000000000000000u64, 0x0000000000000000u64, 0x0000000000000000u64, 0x0000000000000000u64, 0x0000000000000000u64, 0x0000000000000000u64, 0x0000000000000000u64, 0x0000000000000000u64]);
    rc.push(vec![0xb296a3e808da93fau64, 0x0000000000000000u64, 0x0000000000000000u64, 0x0000000000000000u64, 0x0000000000000000u64, 0x0000000000000000u64, 0x0000000000000000u64, 0x0000000000000000u64, 0x0000000000000000u64, 0x0000000000000000u64, 0x0000000000000000u64, 0x0000000000000000u64]);
    rc.push(vec![0x8370ecbda11a327eu64, 0x0000000000000000u64, 0x0000000000000000u64, 0x0000000000000000u64, 0x0000000000000000u64, 0x0000000000000000u64, 0x0000000000000000u64, 0x0000000000000000u64, 0x0000000000000000u64, 0x0000000000000000u64, 0x0000000000000000u64, 0x0000000000000000u64]);
    rc.push(vec![0x3f9075283775dad8u64, 0x0000000000000000u64, 0x0000000000000000u64, 0x0000000000000000u64, 0x0000000000000000u64, 0x0000000000000000u64, 0x0000000000000000u64, 0x0000000000000000u64, 0x0000000000000000u64, 0x0000000000000000u64, 0x0000000000000000u64, 0x0000000000000000u64]);
    rc.push(vec![0xb78095bb23c6aa84u64, 0x0000000000000000u64, 0x0000000000000000u64, 0x0000000000000000u64, 0x0000000000000000u64, 0x0000000000000000u64, 0x0000000000000000u64, 0x0000000000000000u64, 0x0000000000000000u64, 0x0000000000000000u64, 0x0000000000000000u64, 0x0000000000000000u64]);
    rc.push(vec![0x3f36b9fe72ad4e5fu64, 0x0000000000000000u64, 0x0000000000000000u64, 0x0000000000000000u64, 0x0000000000000000u64, 0x0000000000000000u64, 0x0000000000000000u64, 0x0000000000000000u64, 0x0000000000000000u64, 0x0000000000000000u64, 0x0000000000000000u64, 0x0000000000000000u64]);
    rc.push(vec![0x69bc96780b10b553u64, 0x0000000000000000u64, 0x0000000000000000u64, 0x0000000000000000u64, 0x0000000000000000u64, 0x0000000000000000u64, 0x0000000000000000u64, 0x0000000000000000u64, 0x0000000000000000u64, 0x0000000000000000u64, 0x0000000000000000u64, 0x0000000000000000u64]);
    rc.push(vec![0x3f1d341f2eb7b881u64, 0x0000000000000000u64, 0x0000000000000000u64, 0x0000000000000000u64, 0x0000000000000000u64, 0x0000000000000000u64, 0x0000000000000000u64, 0x0000000000000000u64, 0x0000000000000000u64, 0x0000000000000000u64, 0x0000000000000000u64, 0x0000000000000000u64]);
    rc.push(vec![0x4e939e9815838818u64, 0x0000000000000000u64, 0x0000000000000000u64, 0x0000000000000000u64, 0x0000000000000000u64, 0x0000000000000000u64, 0x0000000000000000u64, 0x0000000000000000u64, 0x0000000000000000u64, 0x0000000000000000u64, 0x0000000000000000u64, 0x0000000000000000u64]);
    rc.push(vec![0xda366b3ae2a31604u64, 0x0000000000000000u64, 0x0000000000000000u64, 0x0000000000000000u64, 0x0000000000000000u64, 0x0000000000000000u64, 0x0000000000000000u64, 0x0000000000000000u64, 0x0000000000000000u64, 0x0000000000000000u64, 0x0000000000000000u64, 0x0000000000000000u64]);
    rc.push(vec![0xbc89db1e7287d509u64, 0x0000000000000000u64, 0x0000000000000000u64, 0x0000000000000000u64, 0x0000000000000000u64, 0x0000000000000000u64, 0x0000000000000000u64, 0x0000000000000000u64, 0x0000000000000000u64, 0x0000000000000000u64, 0x0000000000000000u64, 0x0000000000000000u64]);
    rc.push(vec![0x6102f411f9ef5659u64, 0x0000000000000000u64, 0x0000000000000000u64, 0x0000000000000000u64, 0x0000000000000000u64, 0x0000000000000000u64, 0x0000000000000000u64, 0x0000000000000000u64, 0x0000000000000000u64, 0x0000000000000000u64, 0x0000000000000000u64, 0x0000000000000000u64]);
    rc.push(vec![0x58725c5e7ac1f0abu64, 0x0000000000000000u64, 0x0000000000000000u64, 0x0000000000000000u64, 0x0000000000000000u64, 0x0000000000000000u64, 0x0000000000000000u64, 0x0000000000000000u64, 0x0000000000000000u64, 0x0000000000000000u64, 0x0000000000000000u64, 0x0000000000000000u64]);
    rc.push(vec![0x0df5856c798883e7u64, 0x0000000000000000u64, 0x0000000000000000u64, 0x0000000000000000u64, 0x0000000000000000u64, 0x0000000000000000u64, 0x0000000000000000u64, 0x0000000000000000u64, 0x0000000000000000u64, 0x0000000000000000u64, 0x0000000000000000u64, 0x0000000000000000u64]);
    rc.push(vec![0xf7bb62a8da4c961bu64, 0x0000000000000000u64, 0x0000000000000000u64, 0x0000000000000000u64, 0x0000000000000000u64, 0x0000000000000000u64, 0x0000000000000000u64, 0x0000000000000000u64, 0x0000000000000000u64, 0x0000000000000000u64, 0x0000000000000000u64, 0x0000000000000000u64]);
    rc.push(vec![0xc68be7c94882a24du64, 0xaf996d5d5cdaedd9u64, 0x9717f025e7daf6a5u64, 0x6436679e6e7216f4u64, 0x8a223d99047af267u64, 0xbb512e35a133ba9au64, 0xfbbf44097671aa03u64, 0xf04058ebf6811e61u64, 0x5cca84703fac7ffbu64, 0x9b55c7945de6469fu64, 0x8e05bf09808e934fu64, 0x2ea900de876307d7u64]);
    rc.push(vec![0x7748fff2b38dfb89u64, 0x6b99a676dd3b5d81u64, 0xac4bb7c627cf7c13u64, 0xadb6ebe5e9e2f5bau64, 0x2d33378cafa24ae3u64, 0x1e5b73807543f8c2u64, 0x09208814bfebb10fu64, 0x782e64b6bb5b93ddu64, 0xadd5a48eac90b50fu64, 0xadd4c54c736ea4b1u64, 0xd58dbb86ed817fd8u64, 0x6d5ed1a533f34dddu64]);
    rc.push(vec![0x28686aa3e36b7cb9u64, 0x591abd3476689f36u64, 0x047d766678f13875u64, 0xa2a11112625f5b49u64, 0x21fd10a3f8304958u64, 0xf9b40711443b0280u64, 0xd2697eb8b2bde88eu64, 0x3493790b51731b3fu64, 0x11caf9dd73764023u64, 0x7acfb8f72878164eu64, 0x744ec4db23cefc26u64, 0x1e00e58f422c6340u64]);
    rc.push(vec![0x21dd28d906a62ddau64, 0xf32a46ab5f465b5fu64, 0xbfce13201f3f7e6bu64, 0xf30d2e7adb5304e2u64, 0xecdf4ee4abad48e9u64, 0xf94e82182d395019u64, 0x4ee52e3744d887c5u64, 0xa1341c7cac0083b2u64, 0x2302fb26c30c834au64, 0xaea3c587273bf7d3u64, 0xf798e24961823ec7u64, 0x962deba3e9a2cd94u64]);
    let r = Poseidon2Params {
        t: 12,
        d: 7,
        rounds_f_beginning: 4,
        rounds_f_end: 4,
        rounds_p: 22,
        rounds: 30,
        mat_internal_diag_m_1,
        round_constants: rc,
    };
    proof {
        assert(r@.diag =~= goldilocks_12_diag());
        assert(r@.rc =~~= goldilocks_12_rc());
        assert(r@ == goldilocks_12_view());
        assert(r@.wf());
    }
    r
}

} // verus!
