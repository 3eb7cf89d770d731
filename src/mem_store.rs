use crate::changes::{folder_changes, list_changes, project_changes, tag_changes};
use crate::error::RepoError;
use crate::ids::{root_key, FolderId, ListId, ProjectId, TagId};
use crate::model::{
    Folder, FolderChildren, FolderView, List, ListView, NewFolder, NewList, NewProject, NewTag,
    PatchFolder, PatchList, PatchProject, Project, ProjectView, Tag, TagView, UpdateTag,
};
use crate::repo::{
    backend_failed, containing_folder, exactly_child_folders, exactly_child_projects, FolderReadRepo, FolderWriteRepo,
    ListReadRepo, ListWriteRepo, ProjectReadRepo, ProjectWriteRepo, RepoModel, TagReadRepo,
    TagWriteRepo,
};
use crate::rows::KeyedRows;
use vstd::prelude::*;

verus! {

/// Name of the root folder that bootstrap provides.
pub open spec fn root_name() -> Seq<char> {
    "root"@
}

/// A backend that keeps every table in memory, for tests and for callers without a
/// database. Keys of new records come from a counter, skipping keys in use.
pub struct MemStore {
    folders: KeyedRows<Folder>,
    projects: KeyedRows<Project>,
    lists: KeyedRows<List>,
    tags: KeyedRows<Tag>,
    next_key: u64,
}

impl RepoModel for MemStore {
    closed spec fn folders(&self) -> Map<Seq<char>, FolderView> {
        self.folders.model()
    }

    closed spec fn projects(&self) -> Map<Seq<char>, ProjectView> {
        self.projects.model()
    }

    closed spec fn lists(&self) -> Map<Seq<char>, ListView> {
        self.lists.model()
    }

    closed spec fn tags(&self) -> Map<Seq<char>, TagView> {
        self.tags.model()
    }

    closed spec fn well_formed(&self) -> bool {
        &&& self.folders.wf()
        &&& self.projects.wf()
        &&& self.lists.wf()
        &&& self.tags.wf()
    }
    open spec fn never_fails(&self) -> bool {
        true
    }
}

/// The folders among `rows` whose parent is `parent`, in the order of `rows`.
fn child_folders(rows: &KeyedRows<Folder>, parent: &FolderId) -> (r: Vec<Folder>)
    requires
        rows.wf(),
    ensures
        exactly_child_folders(r@.map_values(|f: Folder| f@), rows.model(), parent@),
{
    let ghost m = rows.model();
    let ghost s = rows.rows@;
    let mut out: Vec<Folder> = Vec::new();
    let mut i: usize = 0;
    while i < rows.rows.len()
        invariant
            rows.wf(),
            m == rows.model(),
            s == rows.rows@,
            i <= s.len(),
            forall|j: int|
                0 <= j < out@.len() ==> m.contains_key(#[trigger] out@[j]@.id) && m[out@[j]@.id]
                    == out@[j]@ && out@[j]@.parent == Some(parent@),
            forall|j: int|
                0 <= j < out@.len() ==> exists|a: int| 0 <= a < i && s[a]@.id == #[trigger] out@[j]@.id,
            forall|a: int|
                0 <= a < i && #[trigger] s[a]@.parent == Some(parent@) ==> exists|j: int|
                    0 <= j < out@.len() && out@[j]@.id == s[a]@.id,
            forall|j: int, l: int| 0 <= j < l < out@.len() ==> out@[j]@.id != out@[l]@.id,
        decreases s.len() - i,
    {
        let row = &rows.rows[i];
        let hit = match &row.parent {
            Some(p) => p.eq(parent),
            None => false,
        };
        if hit {
            let ghost before = out@;
            out.push(row.clone());
            assert(m.contains_key(s[i as int]@.id));
            assert forall|j: int| 0 <= j < before.len() implies out@[j]@.id != s[i as int]@.id by {
                let a = choose|a: int| 0 <= a < i && s[a]@.id == before[j]@.id;
                assert(out@[j] == before[j]);
                assert(a != i);
            }
            assert forall|j: int|
                0 <= j < out@.len() implies exists|a: int| 0 <= a < i + 1 && s[a]@.id == #[trigger] out@[j]@.id by {
                if j < before.len() {
                    assert(out@[j] == before[j]);
                    let a = choose|a: int| 0 <= a < i && s[a]@.id == before[j]@.id;
                    assert(0 <= a < i + 1 && s[a]@.id == out@[j]@.id);
                } else {
                    assert(s[i as int]@.id == out@[j]@.id);
                }
            }
            assert forall|a: int|
                0 <= a < i + 1 && #[trigger] s[a]@.parent == Some(parent@) implies exists|j: int|
                0 <= j < out@.len() && out@[j]@.id == s[a]@.id by {
                if a < i {
                    let j = choose|j: int| 0 <= j < before.len() && before[j]@.id == s[a]@.id;
                    assert(out@[j] == before[j]);
                } else {
                    assert(out@[before.len() as int]@.id == s[a]@.id);
                }
            }
        } else {
            assert forall|a: int|
                0 <= a < i + 1 && #[trigger] s[a]@.parent == Some(parent@) implies exists|j: int|
                0 <= j < out@.len() && out@[j]@.id == s[a]@.id by {
                if a == i {
                    assert(s[a]@.parent == Some(parent@));
                }
            }
            assert forall|j: int|
                0 <= j < out@.len() implies exists|a: int| 0 <= a < i + 1 && s[a]@.id == #[trigger] out@[j]@.id by {
                let a = choose|a: int| 0 <= a < i && s[a]@.id == out@[j]@.id;
                assert(0 <= a < i + 1);
            }
        }
        i = i + 1;
    }
    let ghost v = out@.map_values(|f: Folder| f@);
    assert forall|k: Seq<char>|
        #[trigger] m.contains_key(k) && m[k].parent == Some(parent@) implies exists|j: int|
        0 <= j < v.len() && #[trigger] v[j].id == k by {
        let a = choose|a: int| 0 <= a < s.len() && s[a]@.id == k;
        assert(s[a]@.parent == Some(parent@));
        let j = choose|j: int| 0 <= j < out@.len() && out@[j]@.id == s[a]@.id;
        assert(v[j] == out@[j]@);
    }
    assert forall|i: int|
        0 <= i < v.len() implies m.contains_key(#[trigger] v[i].id) && m[v[i].id] == v[i]
        && v[i].parent == Some(parent@) by {
        assert(v[i] == out@[i]@);
    }
    assert forall|i: int, j: int| 0 <= i < j < v.len() implies v[i].id != v[j].id by {
        assert(v[i] == out@[i]@);
        assert(v[j] == out@[j]@);
    }
    out
}

/// The projects among `rows` whose folder is `folder`, in the order of `rows`.
fn child_projects(rows: &KeyedRows<Project>, folder: &FolderId) -> (r: Vec<Project>)
    requires
        rows.wf(),
    ensures
        exactly_child_projects(r@.map_values(|p: Project| p@), rows.model(), folder@),
{
    let ghost m = rows.model();
    let ghost s = rows.rows@;
    let mut out: Vec<Project> = Vec::new();
    let mut i: usize = 0;
    while i < rows.rows.len()
        invariant
            rows.wf(),
            m == rows.model(),
            s == rows.rows@,
            i <= s.len(),
            forall|j: int|
                0 <= j < out@.len() ==> m.contains_key(#[trigger] out@[j]@.id) && m[out@[j]@.id]
                    == out@[j]@ && out@[j]@.folder == folder@,
            forall|j: int|
                0 <= j < out@.len() ==> exists|a: int| 0 <= a < i && s[a]@.id == #[trigger] out@[j]@.id,
            forall|a: int|
                0 <= a < i && #[trigger] s[a]@.folder == folder@ ==> exists|j: int|
                    0 <= j < out@.len() && out@[j]@.id == s[a]@.id,
            forall|j: int, l: int| 0 <= j < l < out@.len() ==> out@[j]@.id != out@[l]@.id,
        decreases s.len() - i,
    {
        let row = &rows.rows[i];
        let hit = row.folder.eq(folder);
        if hit {
            let ghost before = out@;
            out.push(row.clone());
            assert(m.contains_key(s[i as int]@.id));
            assert forall|j: int| 0 <= j < before.len() implies out@[j]@.id != s[i as int]@.id by {
                let a = choose|a: int| 0 <= a < i && s[a]@.id == before[j]@.id;
                assert(out@[j] == before[j]);
                assert(a != i);
            }
            assert forall|j: int|
                0 <= j < out@.len() implies exists|a: int| 0 <= a < i + 1 && s[a]@.id == #[trigger] out@[j]@.id by {
                if j < before.len() {
                    assert(out@[j] == before[j]);
                    let a = choose|a: int| 0 <= a < i && s[a]@.id == before[j]@.id;
                    assert(0 <= a < i + 1 && s[a]@.id == out@[j]@.id);
                } else {
                    assert(s[i as int]@.id == out@[j]@.id);
                }
            }
            assert forall|a: int|
                0 <= a < i + 1 && #[trigger] s[a]@.folder == folder@ implies exists|j: int|
                0 <= j < out@.len() && out@[j]@.id == s[a]@.id by {
                if a < i {
                    let j = choose|j: int| 0 <= j < before.len() && before[j]@.id == s[a]@.id;
                    assert(out@[j] == before[j]);
                } else {
                    assert(out@[before.len() as int]@.id == s[a]@.id);
                }
            }
        } else {
            assert forall|a: int|
                0 <= a < i + 1 && #[trigger] s[a]@.folder == folder@ implies exists|j: int|
                0 <= j < out@.len() && out@[j]@.id == s[a]@.id by {
                if a == i {
                    assert(s[a]@.folder == folder@);
                }
            }
            assert forall|j: int|
                0 <= j < out@.len() implies exists|a: int| 0 <= a < i + 1 && s[a]@.id == #[trigger] out@[j]@.id by {
                let a = choose|a: int| 0 <= a < i && s[a]@.id == out@[j]@.id;
                assert(0 <= a < i + 1);
            }
        }
        i = i + 1;
    }
    let ghost v = out@.map_values(|p: Project| p@);
    assert forall|k: Seq<char>|
        #[trigger] m.contains_key(k) && m[k].folder == folder@ implies exists|j: int|
        0 <= j < v.len() && #[trigger] v[j].id == k by {
        let a = choose|a: int| 0 <= a < s.len() && s[a]@.id == k;
        assert(s[a]@.folder == folder@);
        let j = choose|j: int| 0 <= j < out@.len() && out@[j]@.id == s[a]@.id;
        assert(v[j] == out@[j]@);
    }
    assert forall|i: int|
        0 <= i < v.len() implies m.contains_key(#[trigger] v[i].id) && m[v[i].id] == v[i]
        && v[i].folder == folder@ by {
        assert(v[i] == out@[i]@);
    }
    assert forall|i: int, j: int| 0 <= i < j < v.len() implies v[i].id != v[j].id by {
        assert(v[i] == out@[i]@);
        assert(v[j] == out@[j]@);
    }
    out
}

impl MemStore {
    /// The counter that the keys of new records come from. A create fails only once it
    /// has run through every value.
    pub closed spec fn key_counter(&self) -> u64 {
        self.next_key
    }

    /// A store that holds the root folder and nothing else.
    pub fn bootstrap() -> (r: MemStore)
        ensures
            r.well_formed(),
            r.folders() == Map::<Seq<char>, FolderView>::empty().insert(
                root_key(),
                FolderView { id: root_key(), name: root_name(), parent: None },
            ),
            r.projects() == Map::<Seq<char>, ProjectView>::empty(),
            r.lists() == Map::<Seq<char>, ListView>::empty(),
            r.tags() == Map::<Seq<char>, TagView>::empty(),
            r.key_counter() == 1,
    {
        let mut folders = KeyedRows::new();
        folders.add(Folder { id: FolderId::root(), name: "root".to_owned(), parent: None });
        MemStore {
            folders,
            projects: KeyedRows::new(),
            lists: KeyedRows::new(),
            tags: KeyedRows::new(),
            next_key: 1,
        }
    }
}

impl FolderReadRepo for MemStore {
    fn get_folder_metadata(&self, id: &FolderId) -> (r: Result<Folder, RepoError>)
        ensures
            r is Ok <==> self.folders().contains_key(id@),
            !backend_failed(r),
    {
        proof {
            self.folders.lemma_model_finite();
        }
        match self.folders.lookup(id.key_string()) {
            Some(f) => Ok(f),
            None => Err(RepoError::NotFound),
        }
    }

    fn get_folder_children(&self, id: &FolderId) -> (r: Result<FolderChildren, RepoError>)
        ensures
            r is Ok <==> self.folders().contains_key(id@),
            !backend_failed(r),
    {
        if self.folders.position(id.key_string()).is_none() {
            return Err(RepoError::NotFound);
        }
        let folders = child_folders(&self.folders, id);
        let projects = child_projects(&self.projects, id);
        Ok(FolderChildren { folders, projects })
    }
}

impl FolderWriteRepo for MemStore {
    fn create_folder(&mut self, new: NewFolder) -> (r: Result<Folder, RepoError>)
        ensures
            r is Err ==> final(self).key_counter() == u64::MAX,
    {
        let key = match self.folders.fresh_key(&mut self.next_key) {
            Some(k) => k,
            None => return Err(RepoError::DbError("no free folder key left".to_owned())),
        };
        let parent = containing_folder(new.parent);
        let folder = Folder { id: FolderId::from_trusted_key(key), name: new.name, parent: Some(parent) };
        self.folders.add(folder.clone());
        Ok(folder)
    }

    fn update_folder(&mut self, id: &FolderId, patch: PatchFolder) -> (r: Result<Folder, RepoError>)
        ensures
            !backend_failed(r),
    {
        let changes = match folder_changes(patch) {
            Ok(c) => c,
            Err(e) => return Err(e),
        };
        match self.folders.position(id.key_string()) {
            None => Err(RepoError::NotFound),
            Some(i) => {
                let mut f = self.folders.rows[i].clone();
                match changes.name {
                    Some(n) => {
                        f.name = n;
                    },
                    None => {},
                }
                match changes.parent {
                    Some(p) => {
                        f.parent = p;
                    },
                    None => {},
                }
                self.folders.put(i, f.clone());
                Ok(f)
            },
        }
    }

    fn delete_folder(&mut self, id: &FolderId) -> (r: Result<(), RepoError>)
        ensures
            r is Ok <==> old(self).folders().contains_key(id@),
            !backend_failed(r),
    {
        match self.folders.position(id.key_string()) {
            None => Err(RepoError::NotFound),
            Some(i) => {
                self.folders.drop_at(i);
                Ok(())
            },
        }
    }
}


impl ProjectReadRepo for MemStore {
    fn get_project(&self, id: &ProjectId) -> (r: Result<Project, RepoError>)
        ensures
            r is Ok <==> self.projects().contains_key(id@),
            !backend_failed(r),
    {
        match self.projects.lookup(id.key_string()) {
            Some(x) => Ok(x),
            None => Err(RepoError::NotFound),
        }
    }
}

impl ProjectWriteRepo for MemStore {
    fn create_project(&mut self, new: NewProject) -> (r: Result<Project, RepoError>)
        ensures
            r is Err ==> final(self).key_counter() == u64::MAX,
    {
        let key = match self.projects.fresh_key(&mut self.next_key) {
            Some(k) => k,
            None => return Err(RepoError::DbError("no free project key left".to_owned())),
        };
        let folder = containing_folder(new.folder);
        let made = Project { id: ProjectId::from_trusted_key(key), name: new.name, folder };
        self.projects.add(made.clone());
        Ok(made)
    }

    fn update_project(&mut self, id: &ProjectId, patch: PatchProject) -> (r: Result<Project, RepoError>)
        ensures
            !backend_failed(r),
    {
        let changes = match project_changes(patch) {
            Ok(c) => c,
            Err(e) => return Err(e),
        };
        match self.projects.position(id.key_string()) {
            None => Err(RepoError::NotFound),
            Some(i) => {
                let mut x = self.projects.rows[i].clone();
                match changes.name {
                    Some(v) => {
                        x.name = v;
                    },
                    None => {},
                }
                match changes.folder {
                    Some(v) => {
                        x.folder = v;
                    },
                    None => {},
                }

                self.projects.put(i, x.clone());
                Ok(x)
            },
        }
    }

    fn delete_project(&mut self, id: &ProjectId) -> (r: Result<(), RepoError>)
        ensures
            r is Ok <==> old(self).projects().contains_key(id@),
            !backend_failed(r),
    {
        match self.projects.position(id.key_string()) {
            None => Err(RepoError::NotFound),
            Some(i) => {
                self.projects.drop_at(i);
                Ok(())
            },
        }
    }
}

impl ListReadRepo for MemStore {
    fn get_list(&self, id: &ListId) -> (r: Result<List, RepoError>)
        ensures
            r is Ok <==> self.lists().contains_key(id@),
            !backend_failed(r),
    {
        match self.lists.lookup(id.key_string()) {
            Some(x) => Ok(x),
            None => Err(RepoError::NotFound),
        }
    }
}

impl ListWriteRepo for MemStore {
    fn create_list(&mut self, new: NewList) -> (r: Result<List, RepoError>)
        ensures
            r is Err ==> final(self).key_counter() == u64::MAX,
    {
        let key = match self.lists.fresh_key(&mut self.next_key) {
            Some(k) => k,
            None => return Err(RepoError::DbError("no free list key left".to_owned())),
        };
        let made = List { id: ListId::from_trusted_key(key), name: new.name, project: new.project };
        self.lists.add(made.clone());
        Ok(made)
    }

    fn update_list(&mut self, id: &ListId, patch: PatchList) -> (r: Result<List, RepoError>)
        ensures
            !backend_failed(r),
    {
        let changes = match list_changes(patch) {
            Ok(c) => c,
            Err(e) => return Err(e),
        };
        match self.lists.position(id.key_string()) {
            None => Err(RepoError::NotFound),
            Some(i) => {
                let mut x = self.lists.rows[i].clone();
                match changes.name {
                    Some(v) => {
                        x.name = v;
                    },
                    None => {},
                }
                match changes.project {
                    Some(v) => {
                        x.project = v;
                    },
                    None => {},
                }

                self.lists.put(i, x.clone());
                Ok(x)
            },
        }
    }

    fn delete_list(&mut self, id: &ListId) -> (r: Result<(), RepoError>)
        ensures
            r is Ok <==> old(self).lists().contains_key(id@),
            !backend_failed(r),
    {
        match self.lists.position(id.key_string()) {
            None => Err(RepoError::NotFound),
            Some(i) => {
                self.lists.drop_at(i);
                Ok(())
            },
        }
    }
}

impl TagReadRepo for MemStore {
    fn get_tag(&self, id: &TagId) -> (r: Result<Tag, RepoError>)
        ensures
            r is Ok <==> self.tags().contains_key(id@),
            !backend_failed(r),
    {
        match self.tags.lookup(id.key_string()) {
            Some(x) => Ok(x),
            None => Err(RepoError::NotFound),
        }
    }
}

impl TagWriteRepo for MemStore {
    fn create_tag(&mut self, new: NewTag) -> (r: Result<Tag, RepoError>)
        ensures
            r is Err ==> final(self).key_counter() == u64::MAX,
    {
        let key = match self.tags.fresh_key(&mut self.next_key) {
            Some(k) => k,
            None => return Err(RepoError::DbError("no free tag key left".to_owned())),
        };
        let made = Tag { id: TagId::from_trusted_key(key), name: new.name, color: new.color };
        self.tags.add(made.clone());
        Ok(made)
    }

    fn update_tag(&mut self, id: &TagId, patch: UpdateTag) -> (r: Result<Tag, RepoError>)
        ensures
            !backend_failed(r),
    {
        let changes = match tag_changes(patch) {
            Ok(c) => c,
            Err(e) => return Err(e),
        };
        match self.tags.position(id.key_string()) {
            None => Err(RepoError::NotFound),
            Some(i) => {
                let mut x = self.tags.rows[i].clone();
                match changes.name {
                    Some(v) => {
                        x.name = v;
                    },
                    None => {},
                }
                match changes.color {
                    Some(v) => {
                        x.color = v;
                    },
                    None => {},
                }

                self.tags.put(i, x.clone());
                Ok(x)
            },
        }
    }

    fn delete_tag(&mut self, id: &TagId) -> (r: Result<(), RepoError>)
        ensures
            r is Ok <==> old(self).tags().contains_key(id@),
            !backend_failed(r),
    {
        match self.tags.position(id.key_string()) {
            None => Err(RepoError::NotFound),
            Some(i) => {
                self.tags.drop_at(i);
                Ok(())
            },
        }
    }
}

} // verus!
