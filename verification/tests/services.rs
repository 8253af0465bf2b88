use betterjeb::docking_camera::{self, Camera};
use betterjeb::krpc::{remove_stream, scene_code, scene_from_code, start_stream, GameScene};
use betterjeb::li_dar::{self, Laser};
use betterjeb::rpc::encode_varint;
use betterjeb::vector::Vec3D;

#[test]
fn varint_encoding() {
    assert_eq!(encode_varint(0), vec![0]);
    assert_eq!(encode_varint(1), vec![1]);
    assert_eq!(encode_varint(127), vec![127]);
    assert_eq!(encode_varint(128), vec![0x80, 0x01]);
    assert_eq!(encode_varint(300), vec![0xAC, 0x02]);
    assert_eq!(
        encode_varint(u64::MAX),
        vec![0xFF, 0xFF, 0xFF, 0xFF, 0xFF, 0xFF, 0xFF, 0xFF, 0xFF, 0x01]
    );
}

#[test]
fn camera_requests() {
    let cam = Camera { id: 300 };
    let call = cam.get_image();
    assert_eq!(call.service, "DockingCamera");
    assert_eq!(call.procedure, "Camera_get_Image");
    assert_eq!(call.args, vec![vec![0xAC, 0x02]]);
    let call = cam.get_part();
    assert_eq!(call.procedure, "Camera_get_Part");
    let call = docking_camera::camera(5);
    assert_eq!(call.procedure, "Camera");
    assert_eq!(call.args, vec![vec![5]]);
    let call = docking_camera::get_available();
    assert_eq!(call.procedure, "get_Available");
    assert!(call.args.is_empty());
}

#[test]
fn laser_requests() {
    let laser = Laser { id: 4 };
    let call = laser.get_cloud();
    assert_eq!(call.service, "LiDAR");
    assert_eq!(call.procedure, "Laser_get_Cloud");
    assert_eq!(call.args, vec![vec![4]]);
    let call = laser.get_part();
    assert_eq!(call.procedure, "Laser_get_Part");
    let call = li_dar::laser(9);
    assert_eq!(call.procedure, "Laser");
    let call = li_dar::get_available();
    assert!(call.args.is_empty());
}

#[test]
fn stream_control_requests() {
    let call = remove_stream(128);
    assert_eq!(call.service, "KRPC");
    assert_eq!(call.procedure, "RemoveStream");
    assert_eq!(call.args, vec![vec![0x80, 0x01]]);
    let call = start_stream(7);
    assert_eq!(call.procedure, "StartStream");
    assert_eq!(call.args, vec![vec![7]]);
}

#[test]
fn game_scene_codes_round_trip() {
    let scenes = [
        GameScene::SpaceCenter,
        GameScene::Flight,
        GameScene::TrackingStation,
        GameScene::EditorVAB,
        GameScene::EditorSPH,
    ];
    for (i, s) in scenes.iter().enumerate() {
        assert_eq!(scene_code(*s), i as i32);
        assert_eq!(scene_from_code(i as i32), *s);
    }
}

#[test]
fn vector_operations() {
    let x = Vec3D::new(1, 0, 0);
    let y = Vec3D::new(0, 1, 0);
    let z = Vec3D::new(0, 0, 1);
    assert_eq!(x.cross(&y), z);
    assert_eq!(y.cross(&z), x);
    assert_eq!(x.dot(&y), 0);
    let a = Vec3D::new(3, -4, 12);
    assert_eq!(a.dot(&a), 169);
    assert_eq!(a.mag(), 13);
    let b = Vec3D::new(2, 3, 4);
    assert_eq!(a.cross(&b), Vec3D::new(-52, 12, 17));
    assert_eq!(Vec3D::new(3, 4, 0).mag(), 5);
    assert_eq!(Vec3D::new(1, 1, 1).mag(), 1);
}
