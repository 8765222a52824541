use dioxus_bevy::asset_path;

#[test]
fn relative_path_is_kept() {
    assert_eq!(asset_path("models/cube.gltf"), "models/cube.gltf");
    assert_eq!(asset_path("cube.gltf"), "cube.gltf");
}

#[test]
fn leading_slashes_are_removed() {
    assert_eq!(asset_path("/models/cube.gltf"), "models/cube.gltf");
    assert_eq!(asset_path("///models/cube.gltf"), "models/cube.gltf");
    assert_eq!(asset_path("/"), "");
}

#[test]
fn leading_asset_directory_is_removed() {
    assert_eq!(asset_path("assets/models/cube.gltf"), "models/cube.gltf");
    assert_eq!(asset_path("/assets/models/cube.gltf"), "models/cube.gltf");
    assert_eq!(asset_path("assets/assets/cube.gltf"), "cube.gltf");
    assert_eq!(asset_path("assets/"), "");
}

#[test]
fn only_a_leading_asset_directory_is_removed() {
    assert_eq!(asset_path("models/assets/cube.gltf"), "models/assets/cube.gltf");
    assert_eq!(asset_path("assets"), "assets");
    assert_eq!(asset_path("assetsx/cube.gltf"), "assetsx/cube.gltf");
    assert_eq!(asset_path("assets//cube.gltf"), "/cube.gltf");
    assert_eq!(asset_path("Assets/cube.gltf"), "Assets/cube.gltf");
}

#[test]
fn empty_path_stays_empty() {
    assert_eq!(asset_path(""), "");
}

#[test]
fn path_with_wide_characters_is_cut_at_characters() {
    assert_eq!(asset_path("/assets/mod\u{e8}les/c\u{fc}be.gltf"), "mod\u{e8}les/c\u{fc}be.gltf");
    assert_eq!(asset_path("\u{e9}/assets/x"), "\u{e9}/assets/x");
}
