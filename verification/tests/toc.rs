use epub_builder::{Element, Toc};

fn sample() -> Toc {
    let mut toc = Toc::new();
    toc.add(Element::new("a", "A"));
    toc.add(Element::new("a#1", "A.1").level(2));
    toc.add(Element::new("a#2", "A.2").level(2));
    toc.add(Element::new("b", "B"));
    toc
}

#[test]
fn nesting_follows_levels() {
    let toc = sample();
    assert_eq!(toc.elements.len(), 2);
    assert_eq!(toc.elements[0].url, "a");
    assert_eq!(toc.elements[1].url, "b");
    let titles: Vec<&str> = toc.elements[0].children.iter().map(|c| c.title.as_str()).collect();
    assert_eq!(titles, vec!["A.1", "A.2"]);
    assert!(toc.elements[1].children.is_empty());
}

#[test]
fn a_gap_in_the_levels_goes_to_the_nearest_heading_above() {
    let mut toc = Toc::new();
    toc.add(Element::new("a", "A"));
    toc.add(Element::new("a#x", "deep").level(3));
    toc.add(Element::new("a#y", "second").level(2));
    assert_eq!(toc.elements.len(), 1);
    let a = &toc.elements[0];
    assert_eq!(a.children.len(), 2);
    assert_eq!(a.children[0].title, "deep");
    assert_eq!(a.children[0].level, 3);
    assert_eq!(a.children[1].title, "second");
}

#[test]
fn a_deep_heading_in_an_empty_table_goes_to_the_top() {
    let mut toc = Toc::new();
    assert!(toc.is_empty());
    toc.add(Element::new("x", "X").level(4));
    assert!(!toc.is_empty());
    assert_eq!(toc.elements.len(), 1);
    assert_eq!(toc.elements[0].level, 4);
}

#[test]
fn nav_points_are_numbered_in_reading_order() {
    let toc = sample();
    let points = toc.nav_points();
    let flat: Vec<(&str, &str, usize)> =
        points.iter().map(|p| (p.url.as_str(), p.title.as_str(), p.order)).collect();
    assert_eq!(
        flat,
        vec![("a", "A", 1), ("a#1", "A.1", 2), ("a#2", "A.2", 3), ("b", "B", 4)]
    );
    let again = toc.nav_points();
    assert_eq!(again.len(), 4);
    assert_eq!(again[3].order, 4);
}

#[test]
fn adding_keeps_what_was_there() {
    let mut toc = sample();
    let before: Vec<String> = toc.nav_points().into_iter().map(|p| p.url).collect();
    toc.add(Element::new("b#1", "B.1").level(2).child(Element::new("b#1a", "B.1.a")));
    let after: Vec<String> = toc.nav_points().into_iter().map(|p| p.url).collect();
    assert_eq!(&after[..before.len()], &before[..]);
    assert_eq!(&after[before.len()..], &["b#1".to_string(), "b#1a".to_string()][..]);
}

#[test]
fn child_moves_below_its_parent() {
    let parent = Element::new("p", "P").level(2);
    let child = Element::new("c", "C").child(Element::new("g", "G"));
    let parent = parent.child(child);
    assert_eq!(parent.level, 2);
    assert_eq!(parent.children[0].level, 3);
    assert_eq!(parent.children[0].children[0].level, 4);
    let deep = Element::new("d", "D").level(7);
    let parent = parent.child(deep);
    assert_eq!(parent.children[1].level, 7);
}

#[test]
fn element_add_descends_along_the_last_child() {
    let mut root = Element::new("r", "R");
    root.add(Element::new("a", "A").level(2));
    root.add(Element::new("b", "B").level(3));
    root.add(Element::new("c", "C").level(2));
    assert_eq!(root.children.len(), 2);
    assert_eq!(root.children[0].children[0].url, "b");
    assert_eq!(root.children[1].url, "c");
}

#[test]
fn render_of_a_leaf() {
    let e = Element::new("a.xhtml", "Tom & <Jerry>");
    assert_eq!(e.render(true), "<li><a href=\"a.xhtml\">Tom &amp; &lt;Jerry&gt;</a></li>");
    assert_eq!(e.render(false), e.render(true));
    assert_eq!(Element::new("a.xhtml", "").render(true), "");
}

#[test]
fn render_nested_numbered() {
    let toc = sample();
    let expected = "    <ol>
      <li>
        <a href=\"a\">A</a>
        <ol>
          <li><a href=\"a#1\">A.1</a></li>
          <li><a href=\"a#2\">A.2</a></li>
        </ol>
      </li>
      <li><a href=\"b\">B</a></li>
    </ol>";
    assert_eq!(toc.render(true), expected);
    assert_eq!(toc.render(false), expected.replace("ol>", "ul>"));
}

#[test]
fn render_epub_numbers_the_points() {
    let toc = sample();
    let expected = "    <navPoint id=\"navPoint-1\" playOrder=\"1\">
      <navLabel>
        <text>A</text>
      </navLabel>
      <content src=\"a\"/>
      <navPoint id=\"navPoint-2\" playOrder=\"2\">
        <navLabel>
          <text>A.1</text>
        </navLabel>
        <content src=\"a#1\"/>
      </navPoint>
      <navPoint id=\"navPoint-3\" playOrder=\"3\">
        <navLabel>
          <text>A.2</text>
        </navLabel>
        <content src=\"a#2\"/>
      </navPoint>
    </navPoint>
    <navPoint id=\"navPoint-4\" playOrder=\"4\">
      <navLabel>
        <text>B</text>
      </navLabel>
      <content src=\"b\"/>
    </navPoint>";
    assert_eq!(toc.render_epub(), expected);
}

#[test]
fn render_epub_counts_past_nine() {
    let mut toc = Toc::new();
    for i in 0..12 {
        toc.add(Element::new(&format!("c{}", i), "T"));
    }
    let text = toc.render_epub();
    assert!(text.contains("id=\"navPoint-10\" playOrder=\"10\""));
    assert!(text.contains("id=\"navPoint-12\" playOrder=\"12\""));
    assert!(!text.contains("navPoint-13"));
}
