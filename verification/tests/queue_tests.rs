use dropout_core::queue::{DownloadQueue, PendingJavaDownload};

fn pending(major: u32, image: &str, url: &str) -> PendingJavaDownload {
    PendingJavaDownload {
        major_version: major,
        image_type: image.to_string(),
        download_url: url.to_string(),
        file_name: format!("java{}-{}.tar.gz", major, image),
        file_size: 1000,
        checksum: None,
        install_path: String::from("/java"),
        created_at: 1,
    }
}

fn keys(queue: &DownloadQueue) -> Vec<(u32, String, String)> {
    queue
        .pending_downloads
        .iter()
        .map(|d| (d.major_version, d.image_type.clone(), d.download_url.clone()))
        .collect()
}

fn key(major: u32, image: &str, url: &str) -> (u32, String, String) {
    (major, image.to_string(), url.to_string())
}

#[test]
fn add_appends_records_of_new_keys() {
    let mut queue = DownloadQueue::default();
    assert!(queue.pending_downloads.is_empty());
    queue.add(pending(17, "jre", "a"));
    queue.add(pending(17, "jdk", "b"));
    queue.add(pending(21, "jre", "c"));
    assert_eq!(keys(&queue), vec![key(17, "jre", "a"), key(17, "jdk", "b"), key(21, "jre", "c")]);
}

#[test]
fn add_replaces_the_record_of_the_same_key() {
    let mut queue = DownloadQueue::default();
    queue.add(pending(17, "jre", "a"));
    queue.add(pending(17, "jdk", "b"));
    queue.add(pending(21, "jre", "c"));
    queue.add(pending(17, "jre", "d"));
    // the last writer wins and stands last; the others keep their order
    assert_eq!(keys(&queue), vec![key(17, "jdk", "b"), key(21, "jre", "c"), key(17, "jre", "d")]);
}

#[test]
fn add_clears_every_older_record_of_the_key() {
    let mut queue = DownloadQueue {
        pending_downloads: vec![
            pending(8, "jre", "a"),
            pending(8, "jre", "b"),
            pending(11, "jre", "c"),
            pending(8, "jre", "d"),
        ],
    };
    queue.add(pending(8, "jre", "e"));
    assert_eq!(keys(&queue), vec![key(11, "jre", "c"), key(8, "jre", "e")]);
}

#[test]
fn remove_deletes_by_key() {
    let mut queue = DownloadQueue::default();
    queue.add(pending(17, "jre", "a"));
    queue.add(pending(17, "jdk", "b"));
    queue.add(pending(21, "jre", "c"));
    queue.remove(17, "jdk");
    assert_eq!(keys(&queue), vec![key(17, "jre", "a"), key(21, "jre", "c")]);
    queue.remove(17, "jdk");
    queue.remove(99, "jre");
    queue.remove(17, "JRE");
    assert_eq!(keys(&queue), vec![key(17, "jre", "a"), key(21, "jre", "c")]);
    queue.remove(21, "jre");
    queue.remove(17, "jre");
    assert!(queue.pending_downloads.is_empty());
    queue.remove(17, "jre");
    assert!(queue.pending_downloads.is_empty());
}

#[test]
fn clone_copies_every_record() {
    let mut queue = DownloadQueue::default();
    queue.add(pending(17, "jre", "a"));
    queue.add(pending(21, "jdk", "b"));
    let copy = queue.clone();
    assert_eq!(keys(&copy), keys(&queue));
    let one = queue.pending_downloads[0].clone();
    assert_eq!(one.file_name, "java17-jre.tar.gz");
    assert_eq!(one.install_path, "/java");
    assert_eq!(one.file_size, 1000);
}
