//! Core-service types: the game scene reported by the interface, and the
//! stream-control requests the telemetry subscriptions need.

use vstd::prelude::*;

use crate::rpc::{call1, encode_varint, varint, ProcCall};

verus! {

/// The scene the simulation is currently showing.
#[derive(Debug, Clone, Copy, PartialEq, Eq, Structural)]
pub enum GameScene {
    SpaceCenter,
    Flight,
    TrackingStation,
    EditorVAB,
    EditorSPH,
}

/// The wire code of each scene.
pub open spec fn scene_code_spec(s: GameScene) -> int {
    match s {
        GameScene::SpaceCenter => 0,
        GameScene::Flight => 1,
        GameScene::TrackingStation => 2,
        GameScene::EditorVAB => 3,
        GameScene::EditorSPH => 4,
    }
}

/// Decode a scene from its wire code. Codes outside the scene set are not
/// accepted: the interface never sends them.
pub fn scene_from_code(code: i32) -> (s: GameScene)
    requires
        0 <= code <= 4,
    ensures
        scene_code_spec(s) == code,
{
    match code {
        0 => GameScene::SpaceCenter,
        1 => GameScene::Flight,
        2 => GameScene::TrackingStation,
        3 => GameScene::EditorVAB,
        _ => GameScene::EditorSPH,
    }
}

/// The wire code of a scene.
pub fn scene_code(s: GameScene) -> (code: i32)
    ensures
        code == scene_code_spec(s),
        0 <= code <= 4,
{
    match s {
        GameScene::SpaceCenter => 0,
        GameScene::Flight => 1,
        GameScene::TrackingStation => 2,
        GameScene::EditorVAB => 3,
        GameScene::EditorSPH => 4,
    }
}

/// Distinct scenes never share a wire code, so a scene survives the round
/// trip through its code.
pub proof fn lemma_scene_code_injective(a: GameScene, b: GameScene)
    requires
        scene_code_spec(a) == scene_code_spec(b),
    ensures
        a == b,
{
}

/// The request that tears one telemetry stream down.
pub fn remove_stream(id: u64) -> (c: ProcCall)
    ensures
        c.service@ == "KRPC"@,
        c.procedure@ == "RemoveStream"@,
        c.args@.len() == 1,
        c.args@[0]@ == varint(id as nat),
{
    call1("KRPC", "RemoveStream", encode_varint(id))
}

/// The request that starts a previously added telemetry stream.
pub fn start_stream(id: u64) -> (c: ProcCall)
    ensures
        c.service@ == "KRPC"@,
        c.procedure@ == "StartStream"@,
        c.args@.len() == 1,
        c.args@[0]@ == varint(id as nat),
{
    call1("KRPC", "StartStream", encode_varint(id))
}

} // verus!
