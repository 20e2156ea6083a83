use git2::Repository;
use tempdir::TempDir;

use given_content_engine::config::Config;
use given_content_engine::content_types::post::QueryError;
use given_content_engine::utils::{filter_prefix, read_dir, read_file, ResolveError};
use given_content_engine::{Post, Store};

fn tree_with(repo: &Repository, files: &[(&str, &str)]) -> git2::Oid {
    let mut builder = repo.treebuilder(None).unwrap();
    let mut dirs: Vec<&str> = Vec::new();
    for (path, content) in files {
        match path.find('/') {
            None => {
                let blob = repo.blob(content.as_bytes()).unwrap();
                builder.insert(*path, blob, 0o100644).unwrap();
            }
            Some(i) => {
                let dir = &path[..i];
                if !dirs.contains(&dir) {
                    dirs.push(dir);
                }
            }
        }
    }
    for dir in dirs {
        let sub: Vec<(&str, &str)> = files
            .iter()
            .filter(|(p, _)| p.len() > dir.len() && p.starts_with(dir) && p[dir.len()..].starts_with('/'))
            .map(|(p, c)| (&p[dir.len() + 1..], *c))
            .collect();
        let oid = tree_with(repo, &sub);
        builder.insert(dir, oid, 0o040000).unwrap();
    }
    builder.write().unwrap()
}

fn bare_repo_with(files: &[(&str, &str)]) -> (Repository, TempDir) {
    let td = TempDir::new("given-test-dir").unwrap();
    let repo = Repository::init_bare(td.path()).unwrap();
    {
        let oid = tree_with(&repo, files);
        let tree = repo.find_tree(oid).unwrap();
        let sig = git2::Signature::now("name", "email").unwrap();
        repo.commit(Some("refs/heads/master"), &sig, &sig, "Initial commit", &tree, &[])
            .unwrap();
    }
    repo.set_head("refs/heads/master").unwrap();
    (repo, td)
}

fn test_config() -> Config {
    Config {
        site_name: "Value A".to_string(),
        site_url: "66".to_string(),
        description: "67".to_string(),
        toc: Vec::new(),
        resolve_extension: "md".to_string(),
    }
}

const POST_WITH_FRONT_MATTER: &str = r#"---
title: Title of my post
tags:
    - my-first-post
    - my-tags
---
Content of my post"#;

fn repo_with_content() -> (Repository, TempDir) {
    bare_repo_with(&[
        ("index.md", "Content inside file index.md"),
        (
            "config.yml",
            "{ site_name: Value A, site_url: 66, description: \"67\" }",
        ),
        ("_posts/2018-1-1-my-post.md", POST_WITH_FRONT_MATTER),
    ])
}

#[test]
fn read_file_test() {
    let (repo, _dir) = bare_repo_with(&[
        ("index.md", "Content inside file index.md"),
        ("inside-another/nested-dir/lala.md", "inside lala"),
        ("nested-dir/lala.md", "lala"),
    ]);

    assert_eq!(
        "Content inside file index.md",
        read_file(&repo, "index.md", "master").unwrap()
    );

    assert_eq!("lala", read_file(&repo, "nested-dir/lala.md", "master").unwrap());
}

#[test]
fn read_dir_test() {
    let (repo, _dir) = bare_repo_with(&[
        ("index.md", "Content inside file index.md"),
        (
            "_posts/2018-1-1-my-first-post.md",
            "Content inside of _posts/2018-1-1-my-first-post.md",
        ),
        (
            "_posts/2018-1-2-my-first-post.md",
            "Content inside of _posts/2018-1-2-my-first-post.md",
        ),
        (
            "_posts/2018-1-3-my-first-post.md",
            "Content inside of _posts/2018-1-3-my-first-post.md",
        ),
    ]);

    let files = read_dir(&repo, "master", Some("_posts")).unwrap();

    assert_eq!(files.len(), 3);
    assert_eq!(files[0], "_posts/2018-1-1-my-first-post.md");
    assert_eq!(files[1], "_posts/2018-1-2-my-first-post.md");
    assert_eq!(files[2], "_posts/2018-1-3-my-first-post.md");
}

#[test]
fn build_store() {
    let (repo, _dir) = bare_repo_with(&[
        (
            "config.yml",
            "{ site_name: Value A, site_url: 66, description: \"67\" }",
        ),
        ("_posts/2018-1-1-my-post.md", "Content of my post"),
    ]);

    let store = Store::init(repo, test_config());

    assert_eq!("master", store.branch);
    assert_eq!("Value A", store.config.site_name)
}

#[test]
fn health_check_store() {
    let (repo, _dir) = bare_repo_with(&[
        (
            "config.yml",
            "{ site_name: Value A, site_url: 66, description: \"67\" }",
        ),
        ("_posts/2018-1-1-my-post.md", "Content of my post"),
    ]);

    let store = Store::init(repo, test_config());
    let status = store.health_check().unwrap();

    assert!(status.warnings.is_empty());
    assert!(status.errors.is_empty());

    assert_eq!(status.branch, "master");
    assert_eq!(status.posts, 1);
    assert_eq!(status.total_files, 2);
}

#[test]
fn list_posts_with_defaults() {
    let (repo, _dir) = repo_with_content();
    let builder = Post::list_posts();
    assert_eq!(builder.language, "en");
    assert_eq!(builder.from, 0);
    assert_eq!(builder.to, 5);

    let store = Store::init(repo, test_config());

    let posts = builder.execute(&store).unwrap();

    assert_eq!(posts[0].content, "Content of my post");
}

#[test]
fn list_posts_with_ten_offset() {
    let (repo, _dir) = repo_with_content();
    let builder = Post::list_posts().offset(0, 10);
    assert_eq!(builder.from, 0);
    assert_eq!(builder.to, 10);

    let store = Store::init(repo, test_config());

    let posts = builder.execute(&store).unwrap();

    assert_eq!(posts[0].content, "Content of my post");
}

#[test]
fn list_all_posts() {
    let (repo, _dir) = repo_with_content();
    let builder = Post::list_posts().all();
    assert_eq!(builder.from, 0);
    assert_eq!(builder.to, <u32>::max_value());

    let store = Store::init(repo, test_config());

    let posts = builder.execute(&store).unwrap();
    let content = &posts[0].content;
    let meta = &posts[0].meta;

    assert_eq!(meta.tags, vec!["my-first-post", "my-tags"]);
    assert_eq!(content, "Content of my post");
}

#[test]
fn find_post_by_identifier() {
    let (repo, _dir) = repo_with_content();
    let store = Store::init(repo, test_config());
    let builder = Post::find("2018-1-1-my-post");

    assert_eq!(builder.id, "2018-1-1-my-post");

    let post = builder.execute(&store).unwrap();
    assert_eq!(post.content, "Content of my post");
}

#[test]
fn query_a_list_of_post() {
    let (repo, _dir) = repo_with_content();

    let store = Store::init(repo, test_config());
    let posts = Post::list_posts().all().execute(&store).unwrap();

    assert_eq!(posts[0].content, "Content of my post");
}

#[test]
fn query_one_post() {
    let (repo, _dir) = repo_with_content();

    let store = Store::init(repo, test_config());
    let post = Post::find("2018-1-1-my-post").execute(&store).unwrap();

    assert_eq!(post.content, "Content of my post");
}

#[test]
fn listed_post_carries_its_title() {
    let (repo, _dir) = repo_with_content();
    let store = Store::init(repo, test_config());

    let posts = Post::list_posts().all().execute(&store).unwrap();
    assert_eq!(posts[0].meta.title, "Title of my post");
}

#[test]
fn name_with_interior_nul_is_no_such_path() {
    let (repo, _dir) = repo_with_content();

    let result = read_file(&repo, "a\u{0}b", "master");
    assert!(matches!(result, Err(ResolveError::NoSuchPath)));

    let store = Store::init(repo, test_config());
    let found = Post::find("x\u{0}y").execute(&store);
    assert!(matches!(found, Err(given_content_engine::content_types::post::QueryError::NotFound)));
}

#[test]
fn find_missing_post_is_not_found() {
    let (repo, _dir) = repo_with_content();
    let store = Store::init(repo, test_config());

    let result = Post::find("no-such-post").execute(&store);
    assert!(matches!(result, Err(QueryError::NotFound)));
}

#[test]
fn empty_posts_directory_lists_nothing() {
    let (repo, _dir) = bare_repo_with(&[("index.md", "Content inside file index.md")]);
    let store = Store::init(repo, test_config());

    let posts = Post::list_posts().all().execute(&store).unwrap();
    assert!(posts.is_empty());
}

#[test]
fn listing_with_prefix_keeps_exactly_the_matches_in_order() {
    let listing: Vec<Vec<u8>> = vec![
        b"_posts/a.md".to_vec(),
        b"_posts/b.md".to_vec(),
        b"index.md".to_vec(),
    ];
    let kept = filter_prefix(listing, b"_posts");
    assert_eq!(kept, vec![b"_posts/a.md".to_vec(), b"_posts/b.md".to_vec()]);
}

#[test]
fn prefix_filter_matches_bytes_not_segments() {
    let listing: Vec<Vec<u8>> = vec![
        b"post-extra".to_vec(),
        b"posts/x".to_vec(),
        b"other".to_vec(),
        b"pos".to_vec(),
    ];
    let kept = filter_prefix(listing, b"post");
    assert_eq!(kept, vec![b"post-extra".to_vec(), b"posts/x".to_vec()]);
}

#[test]
fn reading_a_directory_is_not_a_blob() {
    let (repo, _dir) = repo_with_content();

    let result = read_file(&repo, "_posts", "master");
    assert!(matches!(result, Err(ResolveError::NotABlob)));
}

#[test]
fn missing_branch_is_no_such_branch() {
    let (repo, _dir) = repo_with_content();

    let result = read_file(&repo, "index.md", "no-such-branch");
    assert!(matches!(result, Err(ResolveError::NoSuchBranch)));
}

#[test]
fn pagination_slices_the_listing() {
    let (repo, _dir) = bare_repo_with(&[
        ("_posts/1.md", "one"),
        ("_posts/2.md", "two"),
        ("_posts/3.md", "three"),
    ]);
    let store = Store::init(repo, test_config());

    let first_two = Post::list_posts().offset(0, 2).execute(&store).unwrap();
    assert_eq!(first_two.len(), 2);
    assert_eq!(first_two[0].content, "one");
    assert_eq!(first_two[1].content, "two");

    let last = Post::list_posts().offset(2, 5).execute(&store).unwrap();
    assert_eq!(last.len(), 1);
    assert_eq!(last[0].content, "three");

    let none = Post::list_posts().offset(5, 9).execute(&store).unwrap();
    assert!(none.is_empty());
}
