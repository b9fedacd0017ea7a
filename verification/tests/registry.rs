use nu_plugin_compress::compress::CompressCommand;
use nu_plugin_compress::decompress::DecompressCommand;
use nu_plugin_compress::signature::{CommandCategory, IoType};
use nu_plugin_compress::{CompressPlugin, PluginCommandKind};

#[test]
fn registry_is_stable_across_queries() {
    let plugin = CompressPlugin;
    let first = plugin.commands();
    let second = plugin.commands();
    assert_eq!(first, second);
    assert_eq!(first.len(), 8);
}

#[test]
fn registry_lists_each_operation_once() {
    let plugin = CompressPlugin;
    let commands = plugin.commands();
    for (i, a) in commands.iter().enumerate() {
        for b in commands.iter().skip(i + 1) {
            assert_ne!(a, b);
        }
    }
    assert!(commands.contains(&PluginCommandKind::Compress(CompressCommand::Gzip)));
    assert!(commands.contains(&PluginCommandKind::Decompress(DecompressCommand::Bzip2)));
}

#[test]
fn version_is_fixed() {
    let plugin = CompressPlugin;
    assert_eq!(plugin.version(), "0.1.0");
}

#[test]
fn compress_names_and_descriptions() {
    let cases = [
        (CompressCommand::Gzip, "to gz", "Compress with gzip."),
        (CompressCommand::Zstd, "to zst", "Compress with zstd."),
        (CompressCommand::Xz, "to xz", "Compress with xz."),
        (CompressCommand::Bzip2, "to bz2", "Compress with bzip2."),
    ];
    for (cmd, name, description) in cases {
        assert_eq!(cmd.name(), name);
        assert_eq!(cmd.description(), description);
        let sig = cmd.signature();
        assert_eq!(sig.name, name);
        assert_eq!(sig.input, IoType::Any);
        assert_eq!(sig.output, IoType::Binary);
        assert!(sig.has_level_flag);
        assert_eq!(sig.category, CommandCategory::Experimental);
    }
}

#[test]
fn decompress_names_and_descriptions() {
    let cases = [
        (DecompressCommand::Gzip, "from gz", "Decompress with gzip."),
        (DecompressCommand::Zstd, "from zst", "Decompress with zstd."),
        (DecompressCommand::Xz, "from xz", "Decompress with xz."),
        (DecompressCommand::Bzip2, "from bz2", "Decompress with bzip2."),
    ];
    for (cmd, name, description) in cases {
        assert_eq!(cmd.name(), name);
        assert_eq!(cmd.description(), description);
        let sig = cmd.signature();
        assert_eq!(sig.name, name);
        assert_eq!(sig.input, IoType::Binary);
        assert_eq!(sig.output, IoType::Any);
        assert!(!sig.has_level_flag);
        assert_eq!(sig.category, CommandCategory::Experimental);
    }
}
