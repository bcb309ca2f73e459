//! Building the command line that starts the game: the class path
//! string and the full argument list. Spawning the process is the
//! caller's business.
use vstd::prelude::*;

verus! {

/// The class-path entries, each with a trailing `;`.
pub open spec fn joined_libs(files: Seq<String>) -> Seq<char>
    decreases files.len(),
{
    if files.len() == 0 {
        Seq::empty()
    } else {
        joined_libs(files.drop_last()) + files.last()@ + ";"@
    }
}

/// The views of a sequence of strings.
pub open spec fn strs_of(s: Seq<String>) -> Seq<Seq<char>> {
    s.map_values(|x: String| x@)
}

/// Accumulates the launcher program and the class-path string.
pub struct LaunchBuilder {
    program: String,
    libs: String,
}

impl LaunchBuilder {
    pub closed spec fn program_model(&self) -> Seq<char> {
        self.program@
    }

    pub closed spec fn libs_model(&self) -> Seq<char> {
        self.libs@
    }

    pub fn new(program: String) -> (r: LaunchBuilder)
        ensures
            r.program_model() == program@,
            r.libs_model() == Seq::<char>::empty(),
    {
        LaunchBuilder { program, libs: String::new() }
    }

    /// Builds the class-path string for launching: the game artifact
    /// first, then every library file, each entry ended by `;`.
    pub fn set_libs_to_launch(&mut self, client_path: &str, lib_files: &Vec<String>)
        ensures
            final(self).libs_model() == client_path@ + ";"@ + joined_libs(lib_files@),
            final(self).program_model() == old(self).program_model(),
    {
        let mut lib_str = client_path.to_owned();
        lib_str.append(";");
        let n = lib_files.len();
        let mut i: usize = 0;
        proof {
            assert(joined_libs(lib_files@.take(0)) =~= Seq::<char>::empty());
            assert(lib_str@ + joined_libs(lib_files@.take(0)) =~= lib_str@);
        }
        while i < n
            invariant
                n == lib_files@.len(),
                0 <= i <= n,
                lib_str@ == client_path@ + ";"@ + joined_libs(lib_files@.take(i as int)),
            decreases n - i,
        {
            lib_str.append(lib_files[i].as_str());
            lib_str.append(";");
            proof {
                assert(lib_files@.take(i + 1).drop_last() =~= lib_files@.take(i as int));
                assert(lib_files@.take(i + 1).last() == lib_files@[i as int]);
                assert(lib_str@ == client_path@ + ";"@ + joined_libs(lib_files@.take(i + 1)));
            }
            i += 1;
        }
        proof {
            assert(lib_files@.take(n as int) =~= lib_files@);
        }
        self.libs = lib_str;
    }

    pub fn program(&self) -> (r: &str)
        ensures
            r@ == self.program_model(),
    {
        self.program.as_str()
    }

    pub fn libs(&self) -> (r: &str)
        ensures
            r@ == self.libs_model(),
    {
        self.libs.as_str()
    }
}

/// What a launch needs to know: the version, the installation root, and
/// the extra arguments the caller wants passed through.
pub struct GameLauncher {
    version: String,
    game_dir: String,
    game_args: Vec<String>,
    jvm_args: Vec<String>,
}

impl GameLauncher {
    pub closed spec fn version_model(&self) -> Seq<char> {
        self.version@
    }

    pub closed spec fn game_dir_model(&self) -> Seq<char> {
        self.game_dir@
    }

    pub closed spec fn game_args_model(&self) -> Seq<Seq<char>> {
        strs_of(self.game_args@)
    }

    pub closed spec fn jvm_args_model(&self) -> Seq<Seq<char>> {
        strs_of(self.jvm_args@)
    }

    pub fn new(version: String, game_dir: String, game_args: Vec<String>, jvm_args: Vec<String>) -> (r:
        Self)
        ensures
            r.version_model() == version@,
            r.game_dir_model() == game_dir@,
            r.game_args_model() == strs_of(game_args@),
            r.jvm_args_model() == strs_of(jvm_args@),
    {
        GameLauncher { version, game_dir, game_args, jvm_args }
    }

    pub fn version(&self) -> (r: &str)
        ensures
            r@ == self.version_model(),
    {
        self.version.as_str()
    }

    pub fn game_dir(&self) -> (r: &str)
        ensures
            r@ == self.game_dir_model(),
    {
        self.game_dir.as_str()
    }

    /// The path of the runtime's launcher binary inside the
    /// installation tree; `extension` is the platform's executable
    /// suffix, empty where there is none.
    pub fn java_executable_path(&self, extension: &str) -> (r: String)
        ensures
            r@ == self.game_dir_model() + "runtime/"@ + "bin"@ + "/"@ + "java"@ + extension@,
    {
        let mut r = self.game_dir.clone();
        let dir = crate::paths::Directory::Runtime.as_str();
        r.append(dir.as_str());
        r.append("bin");
        r.append("/");
        r.append("java");
        r.append(extension);
        r
    }

    /// The full argument list of the launch command: the caller's
    /// runtime arguments first, then the class path, the entry class,
    /// and the account, version and directory options.
    pub fn build_arguments(
        &self,
        libs: &str,
        access_token: &str,
        username: &str,
        asset_index_id: &str,
    ) -> (r: Vec<String>)
        ensures
            strs_of(r@) == self.jvm_args_model() + seq![
                "-cp"@,
                libs@,
                "net.minecraft.client.main.Main"@,
                "--accessToken"@,
                access_token@,
                "--version"@,
                self.version_model(),
                "--username"@,
                username@,
                "--gameDir"@,
                self.game_dir_model(),
                "--assetIndex"@,
                asset_index_id@,
                "--assetsDir"@,
                self.game_dir_model() + "assets/"@,
            ],
    {
        broadcast use vstd::prelude::Seq::lemma_push_map_commute;

        let mut r: Vec<String> = Vec::new();
        let n = self.jvm_args.len();
        let mut i: usize = 0;
        proof {
            assert(strs_of(Seq::<String>::empty()) =~= Seq::<Seq<char>>::empty());
            assert(strs_of(self.jvm_args@.take(0)) =~= Seq::<Seq<char>>::empty());
        }
        while i < n
            invariant
                n == self.jvm_args@.len(),
                0 <= i <= n,
                strs_of(r@) == strs_of(self.jvm_args@.take(i as int)),
            decreases n - i,
        {
            r.push(self.jvm_args[i].clone());
            proof {
                assert(self.jvm_args@.take(i + 1).drop_last() =~= self.jvm_args@.take(i as int));
                assert(self.jvm_args@.take(i + 1).last() == self.jvm_args@[i as int]);
                assert(strs_of(self.jvm_args@.take(i + 1)) =~= strs_of(
                    self.jvm_args@.take(i as int),
                ).push(self.jvm_args@[i as int]@));
                assert(strs_of(r@) == strs_of(self.jvm_args@.take(i + 1)));
            }
            i += 1;
        }
        proof {
            assert(self.jvm_args@.take(n as int) =~= self.jvm_args@);
        }
        r.push("-cp".to_owned());
        r.push(libs.to_owned());
        r.push("net.minecraft.client.main.Main".to_owned());
        r.push("--accessToken".to_owned());
        r.push(access_token.to_owned());
        r.push("--version".to_owned());
        r.push(self.version.clone());
        r.push("--username".to_owned());
        r.push(username.to_owned());
        r.push("--gameDir".to_owned());
        r.push(self.game_dir.clone());
        r.push("--assetIndex".to_owned());
        r.push(asset_index_id.to_owned());
        r.push("--assetsDir".to_owned());
        let mut assets_dir = self.game_dir.clone();
        let assets = crate::paths::Directory::Assets.as_str();
        assets_dir.append(assets.as_str());
        r.push(assets_dir);
        proof {
            assert(strs_of(r@) =~= self.jvm_args_model() + seq![
                "-cp"@,
                libs@,
                "net.minecraft.client.main.Main"@,
                "--accessToken"@,
                access_token@,
                "--version"@,
                self.version_model(),
                "--username"@,
                username@,
                "--gameDir"@,
                self.game_dir_model(),
                "--assetIndex"@,
                asset_index_id@,
                "--assetsDir"@,
                self.game_dir_model() + "assets/"@,
            ]);
        }
        r
    }

    pub fn game_args(&self) -> (r: &Vec<String>)
        ensures
            strs_of(r@) == self.game_args_model(),
    {
        &self.game_args
    }

    pub fn jvm_args(&self) -> (r: &Vec<String>)
        ensures
            strs_of(r@) == self.jvm_args_model(),
    {
        &self.jvm_args
    }
}

} // verus!
