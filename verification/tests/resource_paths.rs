use manifold::resources::res_path;

#[test]
fn resource_paths_are_rooted_in_the_asset_directory() {
    assert_eq!(res_path("textures/rickroll.jpg"), "res/textures/rickroll.jpg");
    assert_eq!(res_path("models/plane.obj"), "res/models/plane.obj");
    assert_eq!(res_path(""), "res/");
}
