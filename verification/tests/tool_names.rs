//! Tool names and their flat form.

use std::cmp::Ordering;

use tokencode::tool_name::ToolName;

#[test]
fn flat_wire_name_round_trips_namespaced_and_plain() {
    let ns = ToolName::namespaced("context7", "get-docs");
    assert_eq!(ns.to_flat_wire_name(), "context7__get-docs");
    assert_eq!(ToolName::from_flat_wire_name("context7__get-docs"), ns);

    let plain = ToolName::plain("apply_patch");
    assert_eq!(plain.to_flat_wire_name(), "apply_patch");
    assert_eq!(ToolName::from_flat_wire_name("apply_patch"), plain);
}

#[test]
fn from_flat_wire_name_splits_only_on_first_delimiter() {
    let ns = ToolName::namespaced("ns", "do__something");
    assert_eq!(ns.to_flat_wire_name(), "ns__do__something");
    assert_eq!(ToolName::from_flat_wire_name("ns__do__something"), ns);
}

#[test]
fn flat_wire_name_preserves_namespace_and_name_verbatim() {
    let ns = ToolName::namespaced("mcp_server", "list_tools");
    assert_eq!(ns.to_flat_wire_name(), "mcp_server__list_tools");
    let back = ToolName::from_flat_wire_name("mcp_server__list_tools");
    assert_eq!(back.namespace.as_deref(), Some("mcp_server"));
    assert_eq!(back.name, "list_tools");
}

#[test]
fn flat_wire_name_with_empty_parts() {
    let back = ToolName::from_flat_wire_name("__tool");
    assert_eq!(back.namespace.as_deref(), Some(""));
    assert_eq!(back.name, "tool");
    let back = ToolName::from_flat_wire_name("a___b");
    assert_eq!(back.namespace.as_deref(), Some("a"));
    assert_eq!(back.name, "_b");
    assert_eq!(ToolName::from_flat_wire_name(""), ToolName::plain(""));
}

#[test]
fn tool_names_are_shown_without_delimiter() {
    assert_eq!(ToolName::namespaced("ns", "tool").display(), "nstool");
    assert_eq!(ToolName::plain("tool").display(), "tool");
}

#[test]
fn tool_names_are_ordered_by_name_and_namespace() {
    let a = ToolName::plain("a");
    let b = ToolName::plain("b");
    let c = ToolName::namespaced("ns", "a");
    assert_eq!(a.cmp(&b), Ordering::Less);
    assert_eq!(b.cmp(&a), Ordering::Greater);
    assert_eq!(a.cmp(&a), Ordering::Equal);
    assert_eq!(a.cmp(&c), c.cmp(&a).reverse());
    assert_ne!(a.cmp(&c), Ordering::Equal);
}
