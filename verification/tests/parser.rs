use given_content_engine::file::File;
use given_content_engine::front_matter::{FrontMatter, FrontMatterError, MetaValue, SchemaError};
use given_content_engine::front_matter::front_matter_of_entries;
use given_content_engine::Post;

#[test]
fn delimited_input_becomes_a_full_document() {
    let file = File::parse_file(
        b"---\ntitle: Title of my post\ntags: [my-first-post, my-tags]\n---\nContent of my post",
    )
    .unwrap();
    let matter = file.front_matter.as_ref().unwrap();
    assert_eq!(matter.title, "Title of my post");
    assert_eq!(matter.tags, vec!["my-first-post", "my-tags"]);
    let post = Post::of_file(file);
    assert_eq!(post.content, "Content of my post");
    assert_eq!(post.meta.title, "Title of my post");
    assert_eq!(post.meta.tags, vec!["my-first-post", "my-tags"]);
}

#[test]
fn plain_content_becomes_a_default_document() {
    let file = File::parse_file(b"Content of my post").unwrap();
    assert!(file.front_matter.is_none());
    assert_eq!(file.body, "Content of my post");
    let post = Post::of_file(file);
    assert_eq!(post.content, "Content of my post");
    assert_eq!(post.meta.title, "");
    assert!(post.meta.tags.is_empty());
}

#[test]
fn parse_file_test() {
    let file = File::parse_file(
        b"---
title: hi
---
# My first post
",
    )
    .unwrap();

    assert!(file.front_matter.is_some());
    assert_eq!(file.body, "# My first post\n");
}

#[test]
fn parse_no_front_matter_file_test() {
    let file = File::parse_file(
        b"
# My first post
Lorem ipsum dolor sit amet, consectetur adipisicing elit.
Voluptas quia perferendis, tenetur optio doloribus repellendus commodi tempora provident,
sunt quasi ab excepturi. Iusto quasi cupiditate consectetur facere officia rem similique.
",
    )
    .unwrap();

    assert!(file.front_matter.is_none());
}

#[test]
fn parse_broken_front_matter_file_test() {
    let result = File::parse_file(
        b"---
title: hi
# My first post
Lorem ipsum dolor sit amet, consectetur adipisicing elit.
Voluptas quia perferendis, tenetur optio doloribus repellendus commodi tempora provident,
sunt quasi ab excepturi. Iusto quasi cupiditate consectetur facere officia rem similique.
",
    );

    assert!(matches!(
        result,
        Err(FrontMatterError::Extract(ref e)) if e.description == "No ending front matter delimiter found"
    ));
}

#[test]
fn build_test() {
    let matter = FrontMatter::build(b"---\ntitle: Lorem ipsum\nYo: No clue\n---").unwrap();
    assert_eq!(matter.title, "Lorem ipsum");
}

#[test]
fn example_test() {
    let input = r#"---
title: Title of my post
tags: [my-first-post, my-tags]
---
        "#;

    let matter = FrontMatter::build(&input.as_bytes()).unwrap();
    assert_eq!(matter.title, "Title of my post");
    assert_eq!(matter.tags, vec!["my-first-post", "my-tags"]);
}

#[test]
fn without_starting_delimiter_test() {
    let matter = FrontMatter::build(b"Lorem ipsum lalala");
    assert!(matter.is_err());
    let err = matter.unwrap_err();
    match err {
        FrontMatterError::Extract(err) => {
            assert_eq!(err.description, "No starting front matter delimiter found")
        }
        FrontMatterError::Parse(_) => panic!("Expected: FrontMatterError::Extract error"),
    }
}

#[test]
fn without_ending_delimiter_test() {
    let matter = FrontMatter::build(b"---\ntitle: Hi\n");
    assert!(matter.is_err());
    let err = matter.unwrap_err();
    match err {
        FrontMatterError::Extract(err) => {
            assert_eq!(err.description, "No ending front matter delimiter found")
        }
        FrontMatterError::Parse(_) => panic!("Expected: FrontMatterError::Extract error"),
    }
}

#[test]
fn leading_blank_line_is_tolerated() {
    let with_blank = File::parse_file(b"\n---\ntitle: hi\n---\nbody text").unwrap();
    let without_blank = File::parse_file(b"---\ntitle: hi\n---\nbody text").unwrap();
    assert_eq!(with_blank.body, without_blank.body);
    assert_eq!(
        with_blank.front_matter.unwrap().title,
        without_blank.front_matter.unwrap().title
    );
}

#[test]
fn two_blank_lines_are_not_tolerated() {
    let file = File::parse_file(b"\n\n---\ntitle: hi\n---\nbody").unwrap();
    assert!(file.front_matter.is_none());
    assert_eq!(file.body, "\n\n---\ntitle: hi\n---\nbody");
}

#[test]
fn delimiter_inside_prose_is_no_delimiter() {
    let file = File::parse_file(b"some --- dashes\nmore text\n").unwrap();
    assert!(file.front_matter.is_none());
    assert_eq!(file.body, "some --- dashes\nmore text\n");
}

#[test]
fn closing_delimiter_at_end_of_input_counts() {
    let matter = FrontMatter::build(b"---\ntitle: Hi\n---").unwrap();
    assert_eq!(matter.title, "Hi");
}

#[test]
fn round_trip_recovers_body_and_metadata() {
    let body = "Content of my post\nwith a second line\n";
    let meta = "title: Title of my post\ntags: [my-first-post, my-tags]\n";
    let mut input: Vec<u8> = Vec::new();
    input.extend_from_slice(b"---\n");
    input.extend_from_slice(meta.as_bytes());
    input.extend_from_slice(b"---\n");
    input.extend_from_slice(body.as_bytes());

    let file = File::parse_file(&input).unwrap();
    assert_eq!(file.body, body);
    let matter = file.front_matter.unwrap();
    assert_eq!(matter.title, "Title of my post");
    assert_eq!(matter.tags, vec!["my-first-post", "my-tags"]);
}

#[test]
fn defaults_fill_missing_fields() {
    let matter = FrontMatter::build(b"---\nYo: No clue\n---\n").unwrap();
    assert_eq!(matter.title, "");
    assert!(matter.tags.is_empty());
}

#[test]
fn schema_fill_from_entries() {
    let entries = vec![
        (Some("title".to_string()), MetaValue::Text("A title".to_string())),
        (Some("ignored".to_string()), MetaValue::Other),
        (
            Some("tags".to_string()),
            MetaValue::TextList(vec!["a".to_string(), "b".to_string()]),
        ),
    ];
    let matter = front_matter_of_entries(entries).unwrap();
    assert_eq!(matter.title, "A title");
    assert_eq!(matter.tags, vec!["a", "b"]);

    let empty = front_matter_of_entries(Vec::new()).unwrap();
    assert_eq!(empty.title, "");
    assert!(empty.tags.is_empty());
}

#[test]
fn title_of_wrong_shape_is_a_schema_error() {
    let result = FrontMatter::build(b"---\ntitle: [a, b]\n---\n");
    assert!(matches!(
        result,
        Err(FrontMatterError::Parse(SchemaError::TitleNotAString))
    ));
}

#[test]
fn tags_of_wrong_shape_is_a_schema_error() {
    let result = FrontMatter::build(b"---\ntags: hello\n---\n");
    assert!(matches!(
        result,
        Err(FrontMatterError::Parse(SchemaError::TagsNotASequence))
    ));
}

#[test]
fn tag_of_wrong_shape_is_a_schema_error() {
    let result = FrontMatter::build(b"---\ntags: [1, 2]\n---\n");
    assert!(matches!(
        result,
        Err(FrontMatterError::Parse(SchemaError::TagNotAString))
    ));
}

#[test]
fn non_mapping_block_is_a_schema_error() {
    let result = FrontMatter::build(b"---\n- a\n- b\n---\n");
    assert!(matches!(
        result,
        Err(FrontMatterError::Parse(SchemaError::NotAMapping))
    ));
}

#[test]
fn unparsable_block_is_a_syntax_error() {
    let result = FrontMatter::build(b"---\ntitle: [unclosed\n---\n");
    assert!(matches!(
        result,
        Err(FrontMatterError::Parse(SchemaError::Syntax(_)))
    ));
}

#[test]
fn non_utf8_block_is_rejected() {
    let result = File::parse_file(b"---\n\xff\xfe\n---\nbody");
    assert!(matches!(
        result,
        Err(FrontMatterError::Parse(SchemaError::NotUtf8))
    ));
}
