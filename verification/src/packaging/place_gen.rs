//! A place file's layout on disk, and the XML items it is built from.

use vstd::prelude::*;
use crate::text::{decimal, usize_to_string};
use crate::text::paths::{join_path, path_join};

verus! {

/// Structure of a Roblox place file
#[derive(Debug)]
pub struct PlaceFile {
    /// Path to the client code directory
    pub client_path: String,
    /// Path to the server code directory
    pub server_path: String,
    /// Path to the shared code directory
    pub shared_path: String,
    /// Path to the assets directory
    pub assets_path: String,
    /// Output path for the place file
    pub output_path: String,
    /// Place file name
    pub name: String,
}

/// An entry of a code directory, as the place file reads it.
#[derive(Debug)]
pub enum ScriptEntry {
    /// A `.lua` file: its stem and its source
    Script { name: String, source: String },
    /// A subdirectory, by name
    Folder { name: String },
    /// Any other file
    Other,
}

/// The child references of an item, one line each.
pub open spec fn children_text(children: Seq<String>) -> Seq<char>
    decreases children.len(),
{
    if children.len() == 0 {
        Seq::empty()
    } else {
        children_text(children.drop_last()) + "\t\t<Item referent=\""@ + children.last()@
            + "\">\n"@ + "\t\t</Item>\n"@
    }
}

/// The item of a service.
pub open spec fn service_text(service: Seq<char>, referent: Seq<char>, children: Seq<String>) -> Seq<char> {
    "\t<Item class=\""@ + service + "\" referent=\""@ + referent + "\">\n"@ + "\t\t<Properties>\n"@
        + "\t\t</Properties>\n"@ + children_text(children) + "\t</Item>\n"@
}

/// The item of a folder.
pub open spec fn folder_text(
    folder: Seq<char>,
    referent: Seq<char>,
    parent: Seq<char>,
    children: Seq<String>,
) -> Seq<char> {
    "\t<Item class=\"Folder\" referent=\""@ + referent + "\">\n"@ + "\t\t<Properties>\n"@
        + "\t\t\t<string name=\"Name\">"@ + folder + "</string>\n"@ + "\t\t\t<string name=\"Parent\">"@
        + parent + "</string>\n"@ + "\t\t</Properties>\n"@ + children_text(children) + "\t</Item>\n"@
}

/// The item of a script.
pub open spec fn script_text(
    script: Seq<char>,
    referent: Seq<char>,
    parent: Seq<char>,
    class: Seq<char>,
    source: Seq<char>,
) -> Seq<char> {
    "\t<Item class=\""@ + class + "\" referent=\""@ + referent + "\">\n"@ + "\t\t<Properties>\n"@
        + "\t\t\t<string name=\"Name\">"@ + script + "</string>\n"@ + "\t\t\t<string name=\"Parent\">"@
        + parent + "</string>\n"@ + "\t\t\t<ProtectedString name=\"Source\"><![CDATA["@ + source
        + "]]></ProtectedString>\n"@ + "\t\t</Properties>\n"@ + "\t</Item>\n"@
}

/// The reference of the item made when `n` references are taken.
pub open spec fn next_ref(n: nat) -> Seq<char> {
    "RBX"@ + decimal(n)
}

/// What the scripts of a directory add: for each `.lua` file a script, and
/// for each subdirectory an empty folder, both under the server script
/// service, each taking the next reference.
pub open spec fn scripts_added(
    entries: Seq<ScriptEntry>,
    class: Seq<char>,
    taken: nat,
) -> Seq<(Seq<char>, Seq<char>)>
    decreases entries.len(),
{
    if entries.len() == 0 {
        Seq::empty()
    } else {
        let before = scripts_added(entries.drop_last(), class, taken);
        let r = next_ref(taken + before.len());
        match entries.last() {
            ScriptEntry::Script { name, source } => before.push(
                (r, script_text(name@, r, "RBX6"@, class, source@)),
            ),
            ScriptEntry::Folder { name } => before.push((r, folder_text(name@, r, "RBX6"@, seq![]))),
            ScriptEntry::Other => before,
        }
    }
}

/// The views of a list of string pairs.
pub open spec fn pair_texts(v: Seq<(String, String)>) -> Seq<(Seq<char>, Seq<char>)> {
    Seq::new(v.len(), |i: int| (v[i].0@, v[i].1@))
}

/// Appends the child references of an item.
fn push_children(out: &mut String, children: &[String])
    ensures
        final(out)@ == old(out)@ + children_text(children@),
{
    let mut i: usize = 0;
    while i < children.len()
        invariant
            i <= children@.len(),
            out@ == old(out)@ + children_text(children@.take(i as int)),
        decreases children@.len() - i,
    {
        proof {
            assert(children@.take(i + 1).drop_last() =~= children@.take(i as int));
        }
        out.append("\t\t<Item referent=\"");
        out.append(children[i].as_str());
        out.append("\">\n");
        out.append("\t\t</Item>\n");
        i = i + 1;
    }
    proof {
        assert(children@.take(children@.len() as int) =~= children@);
    }
}

impl PlaceFile {
    /// Create a new place file configuration: the client, server, shared
    /// and assets directories of the project.
    pub fn new(project_path: &str, output_path: &str, name: &str) -> (r: Self)
        ensures
            r.client_path@ == path_join(project_path@, "client"@),
            r.server_path@ == path_join(project_path@, "server"@),
            r.shared_path@ == path_join(project_path@, "shared"@),
            r.assets_path@ == path_join(project_path@, "assets"@),
            r.output_path@ == output_path@,
            r.name@ == name@,
    {
        PlaceFile {
            client_path: join_path(project_path, "client"),
            server_path: join_path(project_path, "server"),
            shared_path: join_path(project_path, "shared"),
            assets_path: join_path(project_path, "assets"),
            output_path: String::from_str(output_path),
            name: String::from_str(name),
        }
    }

    /// Generate XML for a service
    pub fn generate_service_xml(&self, service_name: &str, referent: &str, children: &[String]) -> (r:
        String)
        ensures
            r@ == service_text(service_name@, referent@, children@),
    {
        let mut xml = String::from_str("\t<Item class=\"");
        xml.append(service_name);
        xml.append("\" referent=\"");
        xml.append(referent);
        xml.append("\">\n");
        xml.append("\t\t<Properties>\n");
        xml.append("\t\t</Properties>\n");
        push_children(&mut xml, children);
        xml.append("\t</Item>\n");
        xml
    }

    /// Generate XML for a folder
    pub fn generate_folder_xml(&self, folder_name: &str, referent: &str, parent_ref: &str, children: &[String]) -> (r: String)
        ensures
            r@ == folder_text(folder_name@, referent@, parent_ref@, children@),
    {
        let mut xml = String::from_str("\t<Item class=\"Folder\" referent=\"");
        xml.append(referent);
        xml.append("\">\n");
        xml.append("\t\t<Properties>\n");
        xml.append("\t\t\t<string name=\"Name\">");
        xml.append(folder_name);
        xml.append("</string>\n");
        xml.append("\t\t\t<string name=\"Parent\">");
        xml.append(parent_ref);
        xml.append("</string>\n");
        xml.append("\t\t</Properties>\n");
        push_children(&mut xml, children);
        xml.append("\t</Item>\n");
        xml
    }

    /// Generate XML for a script
    pub fn generate_script_xml(
        &self,
        script_name: &str,
        referent: &str,
        parent_ref: &str,
        script_type: &str,
        content: &str,
    ) -> (r: String)
        ensures
            r@ == script_text(script_name@, referent@, parent_ref@, script_type@, content@),
    {
        let mut xml = String::from_str("\t<Item class=\"");
        xml.append(script_type);
        xml.append("\" referent=\"");
        xml.append(referent);
        xml.append("\">\n");
        xml.append("\t\t<Properties>\n");
        xml.append("\t\t\t<string name=\"Name\">");
        xml.append(script_name);
        xml.append("</string>\n");
        xml.append("\t\t\t<string name=\"Parent\">");
        xml.append(parent_ref);
        xml.append("</string>\n");
        xml.append("\t\t\t<ProtectedString name=\"Source\"><![CDATA[");
        xml.append(content);
        xml.append("]]></ProtectedString>\n");
        xml.append("\t\t</Properties>\n");
        xml.append("\t</Item>\n");
        xml
    }

    /// Add the scripts of a directory: each `.lua` file becomes a script of
    /// class `script_type` and each subdirectory an empty folder, both under
    /// the server script service; each takes the next reference.
    pub fn add_scripts_to_xml(
        &self,
        entries: &Vec<ScriptEntry>,
        script_type: &str,
        item_refs: &mut Vec<String>,
        scripts: &mut Vec<(String, String)>,
    )
        requires
            old(item_refs)@.len() + entries@.len() <= usize::MAX,
        ensures
            final(item_refs)@.len() == old(item_refs)@.len() + (pair_texts(final(scripts)@).len() - pair_texts(old(scripts)@).len()),
            pair_texts(final(scripts)@) == pair_texts(old(scripts)@) + scripts_added(
                entries@,
                script_type@,
                old(item_refs)@.len(),
            ),
            final(item_refs)@.take(old(item_refs)@.len() as int) == old(item_refs)@,
    {
        let ghost refs0 = item_refs@;
        let ghost scripts0 = scripts@;
        let mut i: usize = 0;
        proof {
            assert(pair_texts(scripts@) =~= pair_texts(scripts0) + scripts_added(
                entries@.take(0),
                script_type@,
                refs0.len(),
            ));
        }
        while i < entries.len()
            invariant
                i <= entries@.len(),
                refs0.len() + entries@.len() <= usize::MAX,
                item_refs@.len() == refs0.len() + scripts_added(entries@.take(i as int), script_type@, refs0.len()).len(),
                scripts_added(entries@.take(i as int), script_type@, refs0.len()).len() <= i,
                item_refs@.take(refs0.len() as int) == refs0,
                pair_texts(scripts@) == pair_texts(scripts0) + scripts_added(
                    entries@.take(i as int),
                    script_type@,
                    refs0.len(),
                ),
            decreases entries@.len() - i,
        {
            proof {
                assert(entries@.take(i + 1).drop_last() =~= entries@.take(i as int));
            }
            let ghost before_refs = item_refs@;
            let ghost before_scripts = scripts@;
            match &entries[i] {
                ScriptEntry::Script { name, source } => {
                    let mut r = String::from_str("RBX");
                    r.append(usize_to_string(item_refs.len()).as_str());
                    let xml = self.generate_script_xml(
                        name.as_str(),
                        r.as_str(),
                        "RBX6",
                        script_type,
                        source.as_str(),
                    );
                    item_refs.push(r.clone());
                    let ghost rv = r@;
                    let ghost xv = xml@;
                    scripts.push((r, xml));
                    proof {
                        assert(pair_texts(scripts@) =~= pair_texts(before_scripts).push((rv, xv)));
                        assert(rv == next_ref(before_refs.len()));
                    }
                },
                ScriptEntry::Folder { name } => {
                    let mut r = String::from_str("RBX");
                    r.append(usize_to_string(item_refs.len()).as_str());
                    let none: Vec<String> = Vec::new();
                    let xml = self.generate_folder_xml(name.as_str(), r.as_str(), "RBX6", none.as_slice());
                    item_refs.push(r.clone());
                    let ghost rv = r@;
                    let ghost xv = xml@;
                    scripts.push((r, xml));
                    proof {
                        assert(pair_texts(scripts@) =~= pair_texts(before_scripts).push((rv, xv)));
                        assert(rv == next_ref(before_refs.len()));
                        assert(none@ =~= Seq::<String>::empty());
                    }
                },
                ScriptEntry::Other => {},
            }
            proof {
                assert(pair_texts(scripts@) =~= pair_texts(scripts0) + scripts_added(
                    entries@.take(i + 1),
                    script_type@,
                    refs0.len(),
                ));
                assert(item_refs@.take(refs0.len() as int) =~= refs0);
            }
            i = i + 1;
        }
        proof {
            assert(entries@.take(entries@.len() as int) =~= entries@);
        }
    }
}

} // verus!
