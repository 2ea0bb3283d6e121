use bevy_sync::assets::{
    asset_url, base_url, download_limit, route_request, serve_changed_asset, should_download, take_received, AssetAnswer,
    AssetStore,
};
use bevy_sync::client::{asset_changed_on_client, client_received_a_message, material_changed_on_client};
use bevy_sync::image::{image_to_bin, try_bin_to_image_data};
use bevy_sync::proto::{IpAddress, Message, SyncAssetType};
use bevy_sync::reaction::{apply_to_tracker, Action};
use bevy_sync::server::{asset_changed_on_server, material_changed_on_server, server_received_a_message};
use bevy_sync::tracker::SyncTrackerRes;
use bevy_sync::SyncConnectionParameters;

const MESH_ID: u128 = 0x67e5_5044_10b1_426f_9247_bb68_0e5f_e0c8;

fn params() -> SyncConnectionParameters {
    SyncConnectionParameters::Socket { ip: IpAddress::V4(0x7f00_0001), port: 4000, web_port: 4001, max_transfer: 1000 }
}

#[test]
fn base_urls() {
    assert_eq!(base_url("127.0.0.1", false, 4001), "http://127.0.0.1:4001");
    assert_eq!(base_url("::1", true, 80), "http://[::1]:80");
    assert_eq!(base_url("10.0.0.2", false, 0), "http://10.0.0.2:0");
}

#[test]
fn asset_urls_route_back() {
    let url = asset_url("http://127.0.0.1:4001", SyncAssetType::Mesh, MESH_ID);
    assert_eq!(url, "http://127.0.0.1:4001/mesh/67e55044-10b1-426f-9247-bb680e5fe0c8");
    let path = &url["http://127.0.0.1:4001".len()..];
    assert_eq!(route_request(path), Some((SyncAssetType::Mesh, MESH_ID)));
    for kind in [SyncAssetType::Image, SyncAssetType::Audio] {
        let url = asset_url("", kind, 7);
        assert_eq!(route_request(&url), Some((kind, 7)));
    }
    assert_eq!(asset_url("", SyncAssetType::Image, 7), "/image/00000000-0000-0000-0000-000000000007");
    assert_eq!(asset_url("", SyncAssetType::Audio, 7), "/audio/00000000-0000-0000-0000-000000000007");
}

#[test]
fn unknown_paths_are_not_routed() {
    assert_eq!(route_request("/"), None);
    assert_eq!(route_request("/video/67e55044-10b1-426f-9247-bb680e5fe0c8"), None);
    assert_eq!(route_request("/mesh/not-a-uuid"), None);
    assert_eq!(route_request("x/mesh/67e55044-10b1-426f-9247-bb680e5fe0c8"), None);
    // the image piece is looked for first
    assert_eq!(route_request("/mesh/a/image/67e55044-10b1-426f-9247-bb680e5fe0c8"), None);
    // the simple form of a UUID is read as well
    assert_eq!(route_request("/image/67e5504410b1426f9247bb680e5fe0c8"), Some((SyncAssetType::Image, MESH_ID)));
}

#[test]
fn download_limits() {
    assert_eq!(download_limit(Some("1234"), 99), 1234);
    assert_eq!(download_limit(Some("0"), 99), 0);
    assert_eq!(download_limit(Some("abc"), 99), 99);
    assert_eq!(download_limit(Some("-5"), 99), 99);
    assert_eq!(download_limit(None, 99), 99);
    assert_eq!(download_limit(Some("+12"), 99), 12);
    assert_eq!(download_limit(Some("0012"), 99), 12);
    assert_eq!(download_limit(Some(" 12"), 99), 99);
    assert_eq!(download_limit(Some(""), 99), 99);
    assert_eq!(download_limit(Some("+"), 99), 99);
    assert_eq!(download_limit(Some("99999999999999999999999"), 7), 7);
}

#[test]
fn store_serves_first_bytes_and_answers_with_length() {
    let mut store = AssetStore::new();
    assert!(!store.contains(3));
    assert!(matches!(store.answer(3), AssetAnswer::NotFound));
    store.serve(3, vec![1, 2, 3]);
    store.serve(3, vec![9]);
    match store.answer(3) {
        AssetAnswer::Found { data, content_length } => {
            assert_eq!(data, vec![1, 2, 3]);
            assert_eq!(content_length, "3");
        },
        AssetAnswer::NotFound => panic!("served asset not found"),
    }
    store.insert(3, vec![0; 12]);
    match store.answer(3) {
        AssetAnswer::Found { content_length, .. } => assert_eq!(content_length, "12"),
        AssetAnswer::NotFound => panic!("inserted asset not found"),
    }
}

#[test]
fn store_take_all_empties() {
    let mut store = AssetStore::new();
    store.insert(1, vec![1]);
    store.insert(2, vec![2]);
    let mut all = store.take_all();
    all.sort();
    assert_eq!(all, vec![(1, vec![1]), (2, vec![2])]);
    assert!(!store.contains(1) && !store.contains(2));
    assert!(store.take_all().is_empty());
}

#[test]
fn received_assets_are_not_echoed() {
    let mut pending = AssetStore::new();
    let mut track: SyncTrackerRes<Vec<u8>> = SyncTrackerRes::new();
    pending.insert(5, vec![5]);
    let got = take_received(&mut pending, &mut track);
    assert_eq!(got, vec![(5, vec![5])]);
    assert!(!pending.contains(5));
    let mut served = AssetStore::new();
    let r = asset_changed_on_server(&mut track, &mut served, "http://h:1", SyncAssetType::Mesh, 5, Some(vec![5]), &vec![1]);
    assert!(r.is_none());
    assert!(!served.contains(5));
    // the next change of the same asset is local and is served
    let r = asset_changed_on_server(&mut track, &mut served, "http://h:1", SyncAssetType::Mesh, 5, Some(vec![6]), &vec![1]);
    match r {
        Some(Action::Send { to, msg: Message::MeshUpdated { id: 5, url } }) => {
            assert_eq!(to, vec![1]);
            assert_eq!(url, "http://h:1/mesh/00000000-0000-0000-0000-000000000005");
        },
        _ => panic!("mesh not announced"),
    }
    assert!(served.contains(5));
}

#[test]
fn image_without_bytes_is_still_announced() {
    let mut track: SyncTrackerRes<Vec<u8>> = SyncTrackerRes::new();
    let mut served = AssetStore::new();
    let r = asset_changed_on_client(&mut track, &mut served, "http://c:2", SyncAssetType::Image, 8, None);
    assert!(matches!(r, Some(Action::SendToServer { msg: Message::ImageUpdated { id: 8, .. } })));
    assert!(!served.contains(8));
    let m = serve_changed_asset(&mut track, &mut served, "http://c:2", SyncAssetType::Audio, 9, Some(vec![1]));
    assert!(matches!(m, Some(Message::AudioUpdated { id: 9, .. })));
    assert!(served.contains(9));
}

#[test]
fn host_downloads_only_assets_it_does_not_serve() {
    let mut meshes = AssetStore::new();
    assert!(should_download(&meshes, 4));
    meshes.insert(4, vec![]);
    assert!(!should_download(&meshes, 4));
}

#[test]
fn announced_assets_are_requested_and_relayed() {
    let mut track: SyncTrackerRes<Vec<u8>> = SyncTrackerRes::new();
    let clients = vec![1, 2];
    let url = "http://h/image/x".to_string();
    let r = server_received_a_message(&mut track, 2, Message::ImageUpdated { id: 3, url: url.clone() }, &clients, true);
    match (r.now.as_slice(), r.later.as_slice()) {
        ([Action::RequestAsset { kind: SyncAssetType::Image, id: 3, url: u }], [Action::Send { to, .. }]) => {
            assert_eq!(u, &url);
            assert_eq!(to, &vec![1]);
        },
        _ => panic!("image not requested"),
    }
    let r = client_received_a_message(&mut track, Message::AudioUpdated { id: 4, url }, params(), true);
    assert!(matches!(r.now.as_slice(), [Action::RequestAsset { kind: SyncAssetType::Audio, id: 4, .. }]));
    assert!(r.later.is_empty());
}

#[test]
fn sync_material_from_server() {
    let mut server: SyncTrackerRes<Vec<u8>> = SyncTrackerRes::new();
    let mut client: SyncTrackerRes<Vec<u8>> = SyncTrackerRes::new();
    let red = vec![255, 0, 0, 255];
    let Some(Action::Send { to, msg }) = material_changed_on_server(&mut server, 21, Some(red.clone()), &vec![1]) else {
        panic!("material not sent");
    };
    assert_eq!(to, vec![1]);
    let r = client_received_a_message(&mut client, msg, params(), true);
    match r.later.as_slice() {
        [Action::ApplyMaterial { id: 21, material }] => assert_eq!(material, &red),
        _ => panic!("material not applied"),
    }
    // nothing is remembered before the material is stored
    assert!(material_changed_on_client(&mut SyncTrackerRes::<Vec<u8>>::new(), 21, Some(red.clone())).is_some());
    for a in r.later.iter() {
        apply_to_tracker(&mut client, a);
    }
    // storing it on the client is not sent back
    assert!(material_changed_on_client(&mut client, 21, Some(red)).is_none());
}

#[test]
fn sync_material_from_client() {
    let mut server: SyncTrackerRes<Vec<u8>> = SyncTrackerRes::new();
    let mut client: SyncTrackerRes<Vec<u8>> = SyncTrackerRes::new();
    let red = vec![255, 0, 0, 255];
    let Some(Action::SendToServer { msg }) = material_changed_on_client(&mut client, 22, Some(red.clone())) else {
        panic!("material not sent");
    };
    let r = server_received_a_message(&mut server, 1, msg, &vec![1], true);
    match r.later.as_slice() {
        [Action::ApplyMaterial { id: 22, material }, Action::Send { to, .. }] => {
            assert_eq!(material, &red);
            assert!(to.is_empty());
        },
        _ => panic!("material not applied"),
    }
    for a in r.later.iter() {
        apply_to_tracker(&mut server, a);
    }
    assert!(material_changed_on_server(&mut server, 22, Some(red), &vec![1]).is_none());
}

#[test]
fn sync_material_from_client_to_client_across_server() {
    let mut server: SyncTrackerRes<Vec<u8>> = SyncTrackerRes::new();
    let mut other: SyncTrackerRes<Vec<u8>> = SyncTrackerRes::new();
    let red = vec![255, 0, 0, 255];
    let msg = Message::StandardMaterialUpdated { id: 23, material: red.clone() };
    let r = server_received_a_message(&mut server, 1, msg, &vec![1, 2], true);
    let Some(Action::Send { to, msg }) = r.later.into_iter().nth(1) else {
        panic!("material not relayed");
    };
    assert_eq!(to, vec![2]);
    let r = client_received_a_message(&mut other, msg, params(), true);
    assert!(matches!(r.later.as_slice(), [Action::ApplyMaterial { id: 23, .. }]));
}

#[test]
fn material_that_cannot_be_serialised_is_not_sent() {
    let mut track: SyncTrackerRes<Vec<u8>> = SyncTrackerRes::new();
    assert!(material_changed_on_server(&mut track, 1, None, &vec![1]).is_none());
    assert!(material_changed_on_client(&mut track, 1, None).is_none());
}

#[test]
fn test_image() {
    let data: Vec<u8> = vec![255, 255, 255, 255];
    let bin = image_to_bin(&data);
    let back = try_bin_to_image_data(&bin).unwrap();
    assert_eq!(back, data);
}

#[test]
fn image_data_round_trips() {
    let data: Vec<u8> = (0..2000u32).map(|i| (i % 7) as u8).collect();
    let bin = image_to_bin(&data);
    assert_ne!(bin, data);
    assert_eq!(try_bin_to_image_data(&bin), Some(data));
    let empty = image_to_bin(&[]);
    assert_eq!(try_bin_to_image_data(&empty), Some(vec![]));
    assert_eq!(try_bin_to_image_data(&[0xff, 0xff, 0xff]), None);
}

#[test]
fn material_received_is_remembered_only_when_applied() {
    let mut client: SyncTrackerRes<Vec<u8>> = SyncTrackerRes::new();
    let msg = Message::StandardMaterialUpdated { id: 30, material: vec![1] };
    let r = client_received_a_message(&mut client, msg, params(), true);
    let apply = r.later.into_iter().next().unwrap();
    // the material is not stored yet: a local change of it would still be sent
    let mut probe: SyncTrackerRes<Vec<u8>> = SyncTrackerRes::new();
    apply_to_tracker(&mut probe, &apply);
    assert!(material_changed_on_client(&mut probe, 30, Some(vec![1])).is_none());
    assert!(material_changed_on_client(&mut client, 30, Some(vec![1])).is_some());
}
