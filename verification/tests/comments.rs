use std::collections::hash_map::DefaultHasher;
use std::collections::HashMap;
use std::hash::Hasher;

use depends_core::execution::{
    Clean, Dependency, HashSetVisitor, HashValue, InputNode, IsDirty, Named, NodeHash, NodeIds,
    Resolve, UpdateInput,
};

#[derive(Clone, Debug, PartialEq, Eq)]
struct Comment {
    id: i64,
    text: String,
}

#[derive(Clone, Debug, Default)]
struct Comments {
    /// All comments.
    comments: HashMap<i64, Comment>,
    /// The comments added since the last pass.
    new_comment_ids: Vec<i64>,
    /// Grows with every comment added.
    generation: usize,
}

impl Comments {
    fn new_comments(&self) -> Vec<&Comment> {
        self.new_comment_ids.iter().map(|id| &self.comments[id]).collect()
    }
}

impl Named for Comments {
    // What the contracts of the library call the name of this type.
    fn label() -> &'static str {
        Self::name()
    }

    fn name() -> &'static str {
        "Comments"
    }
}

impl HashValue for Comments {
    // What the contracts of the library call the hash of this value.
    fn content_hash(&self) -> NodeHash {
        self.hash_value(&mut DefaultHasher::new())
    }

    fn hash_value(&self, hasher: &mut DefaultHasher) -> NodeHash {
        hasher.write_usize(self.generation);
        NodeHash::Hashed(hasher.finish())
    }
}

impl Clean for Comments {
    // What the contracts of the library call this value after `clean`.
    fn cleaned(&self) -> Self {
        let mut cleaned = self.clone();
        cleaned.clean();
        cleaned
    }

    fn clean(&mut self) {
        self.new_comment_ids.clear();
    }
}

impl UpdateInput for Comments {
    type Update = Comment;

    // What the contracts of the library call this value after `update_mut`.
    fn updated(&self, update: Self::Update) -> Self {
        let mut updated = self.clone();
        updated.update_mut(update);
        updated
    }

    fn update_mut(&mut self, update: Self::Update) {
        let comment_id = update.id;
        self.comments.insert(comment_id, update);
        self.new_comment_ids.push(comment_id);
        self.generation += 1;
    }
}

fn comment(id: i64, text: &str) -> Comment {
    Comment { id, text: text.to_string() }
}

#[test]
fn new_comments_are_seen_for_one_pass() {
    let mut ids = NodeIds::new();
    let mut dependency = Dependency::new(InputNode::new(Comments::default(), &mut ids));
    let mut visitor = HashSetVisitor::new();
    {
        let output = dependency.resolve_root(&mut visitor).unwrap();
        assert!(output.is_dirty());
        assert_eq!(output.generation, 0);
        assert!(output.comments.is_empty());
        assert!(output.new_comments().is_empty());
    }

    dependency.dependency_mut().update(comment(7, "first")).unwrap();
    {
        let output = dependency.resolve(&mut visitor).unwrap();
        assert!(output.is_dirty());
        assert_eq!(output.generation, 1);
        assert_eq!(output.new_comments(), vec![&comment(7, "first")]);
    }

    dependency.clean();
    {
        let output = dependency.resolve(&mut visitor).unwrap();
        assert!(!output.is_dirty());
        assert_eq!(output.generation, 1);
        assert!(output.new_comments().is_empty());
        assert_eq!(output.comments.len(), 1);
        assert_eq!(output.comments[&7], comment(7, "first"));
    }
}

#[test]
fn root_pass_ends_with_the_cleanup() {
    let mut ids = NodeIds::new();
    let mut dependency = Dependency::new(InputNode::new(Comments::default(), &mut ids));
    let mut visitor = HashSetVisitor::new();
    dependency.dependency_mut().update(comment(1, "one")).unwrap();
    dependency.dependency_mut().update(comment(2, "two")).unwrap();
    {
        let output = dependency.resolve_root(&mut visitor).unwrap();
        assert!(output.is_dirty());
        assert_eq!(output.generation, 2);
        assert!(output.new_comments().is_empty());
        assert_eq!(output.comments.len(), 2);
    }
    dependency.dependency_mut().update(comment(3, "three")).unwrap();
    {
        let output = dependency.resolve(&mut visitor).unwrap();
        assert!(output.is_dirty());
        assert_eq!(output.new_comments(), vec![&comment(3, "three")]);
        assert_eq!(output.comments.len(), 3);
    }
    {
        let output = dependency.resolve_root(&mut visitor).unwrap();
        assert!(!output.is_dirty());
        assert!(output.new_comments().is_empty());
        assert_eq!(output.comments.len(), 3);
    }
}

#[test]
fn failed_root_pass_discards_nothing() {
    let mut ids = NodeIds::new();
    let mut dependency = Dependency::new(InputNode::new(Comments::default(), &mut ids));
    let mut visitor = HashSetVisitor::new();
    dependency.dependency_mut().update(comment(1, "one")).unwrap();
    dependency.acquire().unwrap();
    assert!(dependency.resolve_root(&mut visitor).is_err());
    dependency.release();
    let output = dependency.resolve(&mut visitor).unwrap();
    assert!(output.is_dirty());
    assert_eq!(output.new_comments(), vec![&comment(1, "one")]);
}

#[test]
fn generation_decides_the_hash() {
    let mut comments = Comments::default();
    let empty = comments.hash_value(&mut DefaultHasher::new());
    comments.update_mut(comment(1, "one"));
    let one = comments.hash_value(&mut DefaultHasher::new());
    assert_ne!(empty, one);
    comments.clean();
    assert_eq!(comments.hash_value(&mut DefaultHasher::new()), one);
    let mut expected = DefaultHasher::new();
    expected.write_usize(1);
    assert_eq!(one, NodeHash::Hashed(expected.finish()));
    assert_eq!(<Comments as Named>::name(), "Comments");
}
