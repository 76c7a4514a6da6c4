use portfolio::model::aws_object::AwsObject;
use portfolio::model::experience::{Experience, ExperienceModel, ToExperiences, trimmed_tags};
use portfolio::model::post::{PartialPost, Post, ToPosts, compacted_tags};
use portfolio::model::project::{Project, ProjectModel, ToProjects};
use portfolio::model::short::{Link, ShortModel, ToLinks};
use portfolio::text::{split_commas, u64_to_decimal};
use portfolio::cache::gct_experiences;
use portfolio::handler::posts::add::publication_stamp;

#[test]
fn split_like_str_split() {
    for s in ["", "a", "a,b", ",", "a,,b,", " x , y "] {
        let expected: Vec<String> = s.split(',').map(|p| p.to_string()).collect();
        assert_eq!(split_commas(s), expected);
    }
}

#[test]
fn tags_trimmed_or_compacted() {
    assert_eq!(trimmed_tags(" rust , web dev ,"), vec!["rust", "web dev", ""]);
    assert_eq!(compacted_tags(" rust , web dev ,"), vec!["rust", "webdev", ""]);
    assert_eq!(compacted_tags("a\u{3000}b,\tc"), vec!["ab", "c"]);
}

#[test]
fn experiences_from_rows() {
    let rows = vec![ExperienceModel {
        id: 3,
        title: "Engineer".into(),
        company: "Acme".into(),
        description: "Built things".into(),
        tags: "rust, go".into(),
        date: "2024".into(),
    }];
    let e = rows.to_experiences();
    assert_eq!(e.len(), 1);
    assert_eq!(e[0].id, 3);
    assert_eq!(e[0].company, "Acme");
    assert_eq!(e[0].tags, vec!["rust", "go"]);
    assert_eq!(e[0].date, "2024");
    let x = Experience::new(1, "t".into(), "c".into(), "d".into(), vec![], "y".into());
    assert_eq!(x.title, "t");
}

#[test]
fn posts_from_rows() {
    let rows = vec![
        PartialPost {
            id: 1,
            title: "T".into(),
            slug: "t".into(),
            summary: "S".into(),
            tags: "a b, c".into(),
            date: 86_400,
        },
        PartialPost {
            id: 2,
            title: "U".into(),
            slug: "u".into(),
            summary: "V".into(),
            tags: "".into(),
            date: -1,
        },
    ];
    let p = rows.to_posts();
    assert_eq!(p[0].date, "1970-01-02");
    assert_eq!(p[0].description, "S");
    assert_eq!(p[0].tags, vec!["ab", "c"]);
    assert_eq!(p[1].date, "1969-12-31");
    assert_eq!(p[1].tags, vec![""]);
    let q = Post::new(9, "a".into(), "b".into(), "c".into(), "d".into(), vec![]);
    assert_eq!(q.id, 9);
}

#[test]
fn projects_from_rows() {
    let rows = vec![ProjectModel {
        id: 5,
        title: "P".into(),
        description: "D".into(),
        tags: "x , y z".into(),
        url: "https://p".into(),
        date: "2023".into(),
    }];
    let p = rows.to_projects();
    assert_eq!(p[0].tags, vec!["x", "yz"]);
    assert_eq!(p[0].url, "https://p");
    let q = Project::new(1, "t".into(), "d".into(), "u".into(), vec!["a".into()], "y".into());
    assert_eq!(q.tags, vec!["a"]);
}

#[test]
fn links_from_rows() {
    let rows = vec![ShortModel {
        id: 1,
        long_url: "https://a".into(),
        key: "a".into(),
        description: "d".into(),
        views: 42,
        created_at: chrono::DateTime::from_timestamp(0, 0).unwrap().naive_utc(),
    }];
    let links = rows.to_links();
    assert_eq!(links.len(), 1);
    assert_eq!(links[0].views, 42);
    assert_eq!(links[0].key, "a");
    let l = Link::from(ShortModel {
        id: 2,
        long_url: "u".into(),
        key: "k".into(),
        description: "d".into(),
        views: 0,
        created_at: chrono::DateTime::from_timestamp(0, 0).unwrap().naive_utc(),
    });
    assert_eq!(l.views, 0);
}

#[test]
fn aws_object_defaults() {
    let o = AwsObject::from(None, None, None).unwrap();
    assert_eq!(o.path, "");
    assert_eq!(o.modified, "Unknown");
    assert_eq!(o.size, 0);
    let o = AwsObject::from(Some("a/b.png".into()), Some((1_704_067_200, 0)), Some(12)).unwrap();
    assert_eq!(o.path, "a/b.png");
    assert_eq!(o.modified, "2024-01-01T00:00:00Z");
    assert_eq!(o.size, 12);
    assert!(AwsObject::from(None, Some((i64::MAX, 0)), None).is_none());
}

#[test]
fn calendar_helpers() {
    assert_eq!(gct_experiences(), 2_592_000);
    let posts = vec![PartialPost {
        id: 1,
        title: "t".into(),
        slug: "s".into(),
        summary: "m".into(),
        tags: "a".into(),
        date: 0,
    }]
    .to_posts();
    assert_eq!(posts[0].date, "1970-01-01");
    assert_eq!(publication_stamp(0).as_deref(), Some("1970-01-01T00:00:00+00:00"));
    assert_eq!(publication_stamp(i64::MAX as u64), None);
    assert_eq!(publication_stamp(u64::MAX), None);
    assert_eq!(u64_to_decimal(0), "0");
    assert_eq!(u64_to_decimal(1_234_567_890), "1234567890");
}
