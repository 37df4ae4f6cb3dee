use virtuoso_cli::bridge::VirtuosoClient;
use virtuoso_cli::editor::{LayoutEditor, SchematicEditor};
use virtuoso_cli::layout_ops::LayoutOps;
use virtuoso_cli::schematic_ops::SchematicOps;

#[test]
fn layout_editor_queues_in_order() {
    let client = VirtuosoClient::local("127.0.0.1", 1, 1);
    let mut ed = LayoutEditor::new(&client, "lib", "cell");
    assert!(ed.commands().is_empty());
    ed.add_rect("M1", "drawing", [(0, 0), (1, 2)]);
    ed.add_via("V1", (3, 4));
    ed.add_path("M2", "drawing", 2, vec![(0, 0), (5, 0)]);
    let ops = LayoutOps::new();
    assert_eq!(
        ed.commands(),
        &vec![
            ops.create_rect("M1", "drawing", &[(0, 0), (1, 2)]),
            ops.create_via("V1", (3, 4)),
            ops.create_path("M2", "drawing", 2, &[(0, 0), (5, 0)]),
        ]
    );
    let block = VirtuosoClient::operations_skill(ed.commands()).unwrap();
    assert!(block.starts_with("progn(\nrodCreateRect"));
}

#[test]
fn schematic_editor_queues_in_order() {
    let client = VirtuosoClient::local("127.0.0.1", 1, 1);
    let mut ed = SchematicEditor::new(&client);
    ed.add_instance("analogLib", "nmos4", "symbol", "M1", (0, 0));
    ed.set_param("M1", "w", "1u");
    ed.assign_net("M1", "D", "out");
    ed.add_pin("out", "output", (5, 5));
    ed.add_label("out", (1, 1));
    ed.add_wire(vec![(0, 0), (1, 0)], "wire", "out");
    let ops = SchematicOps::new();
    assert_eq!(ed.commands().len(), 6);
    assert_eq!(ed.commands()[1], ops.set_instance_param("M1", "w", "1u"));
    assert_eq!(ed.commands()[2], ops.assign_net("M1", "D", "out"));
    assert!(std::ptr::eq(ed.client(), &client));
}

#[test]
fn assign_net_connects_the_terminal() {
    let ops = virtuoso_cli::schematic_ops::SchematicOps::new();
    assert_eq!(
        ops.assign_net("M1", "D", "out"),
        "let((inst iterm net) inst = car(setof(i RB_SCH_CV~>instances strcmp(i~>name \"M1\")==0)) iterm = car(setof(x inst~>instTerms strcmp(x~>name \"D\")==0)) net = dbMakeNet(RB_SCH_CV \"out\") when(iterm dbCreateConnByName(net inst iterm~>name)) net)"
    );
}
