use kanyu_shell::layerid::unique_id;

fn ids(v: &[&str]) -> Vec<String> {
    v.iter().map(|s| s.to_string()).collect()
}

#[test]
fn unique_id_keeps_a_free_base() {
    assert_eq!(unique_id(&ids(&[]), "roads"), "roads");
    assert_eq!(unique_id(&ids(&["rivers", "roads_2"]), "roads"), "roads");
}

#[test]
fn unique_id_takes_the_smallest_free_suffix() {
    assert_eq!(unique_id(&ids(&["roads"]), "roads"), "roads_2");
    assert_eq!(unique_id(&ids(&["roads", "roads_2", "roads_4"]), "roads"), "roads_3");
    let mut many = ids(&["b"]);
    for n in 2..=11 {
        many.push(format!("b_{n}"));
    }
    assert_eq!(unique_id(&many, "b"), "b_12");
    assert_eq!(unique_id(&ids(&["", "_2"]), ""), "_3");
}
